use hypercapslock::{
    default_action_mappings, default_action_mappings_for, normalize_action_mappings,
    remove_action_mapping_from_vec, resolve_action_mapping, upsert_action_mapping_in_vec,
    ActionConfig, ActionMappingEntry, DirectionalActionKind, IndependentActionKind, JumpDirection,
    Platform, JS_H_KEYCODE, JS_N_KEYCODE, JS_U_KEYCODE,
};

fn directional(key: u16, with_shift: bool, action: DirectionalActionKind) -> ActionMappingEntry {
    ActionMappingEntry { key, with_shift, action: ActionConfig::Directional { action } }
}

fn command(key: u16, with_shift: bool, text: &str) -> ActionMappingEntry {
    ActionMappingEntry { key, with_shift, action: ActionConfig::Command { command: text.to_string() } }
}

fn input_source(key: u16, with_shift: bool, id: &str) -> ActionMappingEntry {
    ActionMappingEntry {
        key,
        with_shift,
        action: ActionConfig::InputSource { input_source_id: id.to_string() },
    }
}

#[test]
fn test_default_action_mappings_include_core_behaviors() {
    let defaults = default_action_mappings();
    assert!(defaults.iter().any(|m| {
        m.key == JS_H_KEYCODE
            && !m.with_shift
            && matches!(
                m.action,
                ActionConfig::Directional {
                    action: DirectionalActionKind::Left
                }
            )
    }));
    assert!(defaults.iter().any(|m| {
        m.key == JS_U_KEYCODE
            && matches!(
                m.action,
                ActionConfig::Jump {
                    direction: JumpDirection::Up,
                    count: 10
                }
            )
    }));
    assert!(defaults.iter().any(|m| {
        m.key == JS_N_KEYCODE
            && matches!(
                m.action,
                ActionConfig::Independent {
                    action: IndependentActionKind::InsertQuotes
                }
            )
    }));
}

#[test]
fn test_upsert_replaces_existing_binding() {
    let mut mappings = vec![ActionMappingEntry {
        key: 65,
        with_shift: false,
        action: ActionConfig::Directional {
            action: DirectionalActionKind::Left,
        },
    }];

    let changed = upsert_action_mapping_in_vec(
        &mut mappings,
        ActionMappingEntry {
            key: 65,
            with_shift: false,
            action: ActionConfig::Directional {
                action: DirectionalActionKind::Right,
            },
        },
    );

    assert!(changed);
    assert_eq!(mappings.len(), 1);
    assert!(matches!(
        mappings[0].action,
        ActionConfig::Directional {
            action: DirectionalActionKind::Right
        }
    ));
}

#[test]
fn default_table_lists_thirteen_bindings_in_order() {
    let defaults = default_action_mappings();
    let keys: Vec<u16> = defaults.iter().map(|m| m.key).collect();
    assert_eq!(keys, vec![72, 74, 75, 76, 80, 89, 65, 69, 85, 68, 73, 78, 79]);
    assert!(defaults.iter().all(|m| !m.with_shift));
    assert_eq!(defaults[4], directional(80, false, DirectionalActionKind::WordForward));
    assert_eq!(
        defaults[9],
        ActionMappingEntry {
            key: 68,
            with_shift: false,
            action: ActionConfig::Jump { direction: JumpDirection::Down, count: 10 },
        }
    );
}

#[test]
fn macos_defaults_add_two_input_sources() {
    let defaults = default_action_mappings_for(Platform::MacOs);
    assert_eq!(defaults.len(), 15);
    assert_eq!(defaults[13], input_source(188, false, "com.apple.keylayout.ABC"));
    assert_eq!(
        defaults[14],
        input_source(190, false, "com.tencent.inputmethod.wetype.pinyin")
    );
    assert_eq!(default_action_mappings_for(Platform::Windows), default_action_mappings());
}

#[test]
fn upsert_of_equal_entry_reports_no_change() {
    let mut mappings = vec![directional(65, false, DirectionalActionKind::Left)];
    let changed =
        upsert_action_mapping_in_vec(&mut mappings, directional(65, false, DirectionalActionKind::Left));
    assert!(!changed);
    assert_eq!(mappings, vec![directional(65, false, DirectionalActionKind::Left)]);
}

#[test]
fn upsert_of_new_pair_appends_and_reports_change() {
    let mut mappings = vec![directional(65, false, DirectionalActionKind::Left)];
    let changed =
        upsert_action_mapping_in_vec(&mut mappings, directional(65, true, DirectionalActionKind::Up));
    assert!(changed);
    assert_eq!(
        mappings,
        vec![
            directional(65, false, DirectionalActionKind::Left),
            directional(65, true, DirectionalActionKind::Up),
        ]
    );
}

#[test]
fn upsert_replaces_in_place_and_keeps_order() {
    let mut mappings = vec![
        directional(65, false, DirectionalActionKind::Left),
        directional(66, false, DirectionalActionKind::Up),
        directional(67, false, DirectionalActionKind::Down),
    ];
    let changed = upsert_action_mapping_in_vec(&mut mappings, command(66, false, "ls"));
    assert!(changed);
    assert_eq!(
        mappings,
        vec![
            directional(65, false, DirectionalActionKind::Left),
            command(66, false, "ls"),
            directional(67, false, DirectionalActionKind::Down),
        ]
    );
}

#[test]
fn remove_drops_only_the_named_pair() {
    let mut mappings = vec![
        directional(65, false, DirectionalActionKind::Left),
        directional(65, true, DirectionalActionKind::Up),
        directional(66, false, DirectionalActionKind::Down),
    ];
    assert!(remove_action_mapping_from_vec(&mut mappings, 65, true));
    assert_eq!(
        mappings,
        vec![
            directional(65, false, DirectionalActionKind::Left),
            directional(66, false, DirectionalActionKind::Down),
        ]
    );
    assert!(!remove_action_mapping_from_vec(&mut mappings, 65, true));
    assert_eq!(mappings.len(), 2);
}

#[test]
fn remove_drops_every_duplicate_of_the_pair() {
    let mut mappings = vec![
        command(77, true, "a"),
        directional(66, false, DirectionalActionKind::Down),
        command(77, true, "b"),
    ];
    assert!(remove_action_mapping_from_vec(&mut mappings, 77, true));
    assert_eq!(mappings, vec![directional(66, false, DirectionalActionKind::Down)]);
}

#[test]
fn normalize_keeps_first_position_and_last_value() {
    let mut mappings = vec![
        command(77, true, "first"),
        directional(66, false, DirectionalActionKind::Down),
        command(77, true, "second"),
        directional(66, false, DirectionalActionKind::Up),
        command(77, false, "other"),
    ];
    normalize_action_mappings(&mut mappings);
    assert_eq!(
        mappings,
        vec![
            command(77, true, "second"),
            directional(66, false, DirectionalActionKind::Up),
            command(77, false, "other"),
        ]
    );
}

#[test]
fn normalize_leaves_a_unique_table_alone_and_is_idempotent() {
    let mut mappings = default_action_mappings_for(Platform::MacOs);
    normalize_action_mappings(&mut mappings);
    assert_eq!(mappings, default_action_mappings_for(Platform::MacOs));
    let mut twice = vec![command(1, true, "a"), command(1, true, "b")];
    normalize_action_mappings(&mut twice);
    let once = twice.clone();
    normalize_action_mappings(&mut twice);
    assert_eq!(twice, once);
}

#[test]
fn resolver_scenario_directional_falls_back_under_shift() {
    let table = vec![directional(72, false, DirectionalActionKind::Left)];
    assert_eq!(
        resolve_action_mapping(&table, 72, false),
        Some(directional(72, false, DirectionalActionKind::Left))
    );
    assert_eq!(
        resolve_action_mapping(&table, 72, true),
        Some(directional(72, false, DirectionalActionKind::Left))
    );
}

#[test]
fn resolver_scenario_input_source_does_not_fall_back() {
    let table = vec![input_source(188, false, "com.apple.keylayout.ABC")];
    assert_eq!(resolve_action_mapping(&table, 188, true), None);
    assert_eq!(
        resolve_action_mapping(&table, 188, false),
        Some(input_source(188, false, "com.apple.keylayout.ABC"))
    );
}

#[test]
fn resolver_command_does_not_fall_back() {
    let table = vec![command(77, false, "open -a Calculator")];
    assert_eq!(resolve_action_mapping(&table, 77, true), None);
}

#[test]
fn resolver_prefers_exact_shift_binding_over_fallback() {
    let table = vec![
        directional(72, false, DirectionalActionKind::Left),
        command(72, true, "say hi"),
    ];
    assert_eq!(resolve_action_mapping(&table, 72, true), Some(command(72, true, "say hi")));
    assert_eq!(
        resolve_action_mapping(&table, 72, false),
        Some(directional(72, false, DirectionalActionKind::Left))
    );
}

#[test]
fn resolver_finds_nothing_for_unbound_key_or_empty_table() {
    let table = default_action_mappings();
    assert_eq!(resolve_action_mapping(&table, 90, false), None);
    assert_eq!(resolve_action_mapping(&table, 90, true), None);
    assert_eq!(resolve_action_mapping(&Vec::new(), 72, false), None);
}

#[test]
fn resolver_shifted_binding_never_answers_without_shift() {
    let table = vec![command(77, true, "ls")];
    assert_eq!(resolve_action_mapping(&table, 77, false), None);
    assert_eq!(resolve_action_mapping(&table, 77, true), Some(command(77, true, "ls")));
}
