//! The mapping table: an ordered collection of bindings with at most one
//! entry per `(key, with_shift)` pair, and the resolver that reads it.

use crate::action::{
    allow_shift_fallback, allows_shift_fallback, ActionConfig, ActionConfigView, ActionMappingEntry,
    ActionMappingEntryView, DirectionalActionKind, IndependentActionKind, JumpDirection,
};
use crate::keys::{
    DEFAULT_ABC_KEYCODE, DEFAULT_WECHAT_KEYCODE, JS_A_KEYCODE, JS_D_KEYCODE, JS_E_KEYCODE,
    JS_H_KEYCODE, JS_I_KEYCODE, JS_J_KEYCODE, JS_K_KEYCODE, JS_L_KEYCODE, JS_N_KEYCODE,
    JS_O_KEYCODE, JS_P_KEYCODE, JS_U_KEYCODE, JS_Y_KEYCODE,
};
use crate::platform::Platform;
use vstd::prelude::*;

verus! {

/// The mathematical value of a table held in a vector.
pub open spec fn table_view(entries: Seq<ActionMappingEntry>) -> Seq<ActionMappingEntryView> {
    entries.map_values(|e: ActionMappingEntry| e@)
}

/// Whether `entry` is the binding of `key` for the given Shift state.
pub open spec fn binds(entry: ActionMappingEntryView, key: u16, with_shift: bool) -> bool {
    entry.key == key && entry.with_shift == with_shift
}

/// Whether `entry` is an unshifted binding of `key` that may also answer when
/// Shift is held.
pub open spec fn binds_as_fallback(entry: ActionMappingEntryView, key: u16) -> bool {
    entry.key == key && !entry.with_shift && allows_shift_fallback(entry.action)
}

/// Whether some entry of `table` satisfies `wanted`.
pub open spec fn has_match(
    table: Seq<ActionMappingEntryView>,
    wanted: spec_fn(ActionMappingEntryView) -> bool,
) -> bool {
    exists|i: int| 0 <= i < table.len() && wanted(#[trigger] table[i])
}

/// Whether `i` is the position of the first entry of `table` that satisfies
/// `wanted`.
pub open spec fn is_first_match(
    table: Seq<ActionMappingEntryView>,
    wanted: spec_fn(ActionMappingEntryView) -> bool,
    i: int,
) -> bool {
    &&& 0 <= i < table.len()
    &&& wanted(table[i])
    &&& forall|j: int| 0 <= j < i ==> !wanted(#[trigger] table[j])
}

/// The position of the first entry of `table` that satisfies `wanted`.
/// Meaningful only when `has_match(table, wanted)`.
pub open spec fn first_match(
    table: Seq<ActionMappingEntryView>,
    wanted: spec_fn(ActionMappingEntryView) -> bool,
) -> int {
    choose|i: int| is_first_match(table, wanted, i)
}

/// A position that is a first match is the first match.
pub proof fn lemma_first_match_is_unique(
    table: Seq<ActionMappingEntryView>,
    wanted: spec_fn(ActionMappingEntryView) -> bool,
    i: int,
)
    requires
        is_first_match(table, wanted, i),
    ensures
        has_match(table, wanted),
        first_match(table, wanted) == i,
{
    let c = first_match(table, wanted);
    assert(is_first_match(table, wanted, c));
    if c < i {
        assert(!wanted(table[c]));
    }
    if i < c {
        assert(!wanted(table[i]));
    }
}

/// Where a table has a match, its first match is a position of the table
/// whose entry matches and before which none does.
pub proof fn lemma_first_match_exists(
    table: Seq<ActionMappingEntryView>,
    wanted: spec_fn(ActionMappingEntryView) -> bool,
)
    requires
        has_match(table, wanted),
    ensures
        is_first_match(table, wanted, first_match(table, wanted)),
{
    let w = choose|i: int| 0 <= i < table.len() && wanted(#[trigger] table[i]);
    lemma_least_match(table, wanted, w);
}

proof fn lemma_least_match(
    table: Seq<ActionMappingEntryView>,
    wanted: spec_fn(ActionMappingEntryView) -> bool,
    w: int,
)
    requires
        0 <= w < table.len(),
        wanted(table[w]),
    ensures
        exists|i: int| is_first_match(table, wanted, i),
    decreases w,
{
    if exists|j: int| 0 <= j < w && wanted(#[trigger] table[j]) {
        let j = choose|j: int| 0 <= j < w && wanted(#[trigger] table[j]);
        lemma_least_match(table, wanted, j);
    } else {
        assert(is_first_match(table, wanted, w));
    }
}

/// The predicate "is the binding of `key` for `with_shift`".
pub open spec fn exact(key: u16, with_shift: bool) -> spec_fn(ActionMappingEntryView) -> bool {
    |e: ActionMappingEntryView| binds(e, key, with_shift)
}

/// The predicate "is an unshifted binding of `key` open to the Shift fallback".
pub open spec fn fallback(key: u16) -> spec_fn(ActionMappingEntryView) -> bool {
    |e: ActionMappingEntryView| binds_as_fallback(e, key)
}

/// No two entries share a `(key, with_shift)` pair.
pub open spec fn unique_pairs(table: Seq<ActionMappingEntryView>) -> bool {
    forall|i: int, j: int|
        0 <= i < j < table.len() ==> !binds(
            #[trigger] table[i],
            (#[trigger] table[j]).key,
            table[j].with_shift,
        )
}

/// The table after `entry` was upserted: it replaces, in place, the first
/// entry bound to the same pair, and is appended where there is none.
pub open spec fn upsert_spec(
    table: Seq<ActionMappingEntryView>,
    entry: ActionMappingEntryView,
) -> Seq<ActionMappingEntryView> {
    let wanted = exact(entry.key, entry.with_shift);
    if has_match(table, wanted) {
        table.update(first_match(table, wanted), entry)
    } else {
        table.push(entry)
    }
}

/// Whether upserting `entry` changes the table: always when the pair is
/// new, and otherwise only when the entry differs from the one it replaces.
pub open spec fn upsert_changes(
    table: Seq<ActionMappingEntryView>,
    entry: ActionMappingEntryView,
) -> bool {
    let wanted = exact(entry.key, entry.with_shift);
    has_match(table, wanted) ==> table[first_match(table, wanted)] != entry
}

/// Upserting into a table with unique pairs leaves its pairs unique.
pub proof fn lemma_upsert_keeps_pairs_unique(
    table: Seq<ActionMappingEntryView>,
    entry: ActionMappingEntryView,
)
    requires
        unique_pairs(table),
    ensures
        unique_pairs(upsert_spec(table, entry)),
{
    let wanted = exact(entry.key, entry.with_shift);
    let after = upsert_spec(table, entry);
    if has_match(table, wanted) {
        lemma_first_match_exists(table, wanted);
        let p = first_match(table, wanted);
        assert forall|i: int, j: int| 0 <= i < j < after.len() implies !binds(
            #[trigger] after[i],
            (#[trigger] after[j]).key,
            after[j].with_shift,
        ) by {
            assert(binds(table[p], entry.key, entry.with_shift));
            assert(!binds(table[i], table[j].key, table[j].with_shift));
        }
    } else {
        assert forall|i: int, j: int| 0 <= i < j < after.len() implies !binds(
            #[trigger] after[i],
            (#[trigger] after[j]).key,
            after[j].with_shift,
        ) by {
            if j < table.len() {
                assert(!binds(table[i], table[j].key, table[j].with_shift));
            } else {
                assert(!wanted(table[i]));
            }
        }
    }
}

/// The binding that answers `key` with the given Shift state.
///
/// The entry bound to exactly `(key, shift_held)` wins. Failing that, and
/// only while Shift is held, the first unshifted binding of `key` answers,
/// unless its action is an input-source switch or a command.
pub open spec fn resolve_spec(
    table: Seq<ActionMappingEntryView>,
    key: u16,
    shift_held: bool,
) -> Option<ActionMappingEntryView> {
    if has_match(table, exact(key, shift_held)) {
        Some(table[first_match(table, exact(key, shift_held))])
    } else if shift_held && has_match(table, fallback(key)) {
        Some(table[first_match(table, fallback(key))])
    } else {
        None
    }
}

/// Position of the first entry bound to `(key, with_shift)`.
pub fn find_binding(mappings: &Vec<ActionMappingEntry>, key: u16, with_shift: bool) -> (found:
    Option<usize>)
    ensures
        found is Some <==> has_match(table_view(mappings@), exact(key, with_shift)),
        found matches Some(i) ==> is_first_match(
            table_view(mappings@),
            exact(key, with_shift),
            i as int,
        ) && first_match(table_view(mappings@), exact(key, with_shift)) == i,
{
    let ghost table = table_view(mappings@);
    let ghost wanted = exact(key, with_shift);
    let mut i: usize = 0;
    while i < mappings.len()
        invariant
            i <= mappings.len(),
            table == table_view(mappings@),
            wanted == exact(key, with_shift),
            forall|j: int| 0 <= j < i ==> !wanted(#[trigger] table[j]),
        decreases mappings.len() - i,
    {
        if mappings[i].key == key && mappings[i].with_shift == with_shift {
            proof {
                assert(is_first_match(table, wanted, i as int));
                lemma_first_match_is_unique(table, wanted, i as int);
            }
            return Some(i);
        }
        i += 1;
    }
    proof {
        if has_match(table, wanted) {
            lemma_first_match_exists(table, wanted);
        }
    }
    None
}

/// Position of the first unshifted binding of `key` that is open to the
/// Shift fallback.
pub fn find_fallback(mappings: &Vec<ActionMappingEntry>, key: u16) -> (found: Option<usize>)
    ensures
        found is Some <==> has_match(table_view(mappings@), fallback(key)),
        found matches Some(i) ==> is_first_match(table_view(mappings@), fallback(key), i as int)
            && first_match(table_view(mappings@), fallback(key)) == i,
{
    let ghost table = table_view(mappings@);
    let ghost wanted = fallback(key);
    let mut i: usize = 0;
    while i < mappings.len()
        invariant
            i <= mappings.len(),
            table == table_view(mappings@),
            wanted == fallback(key),
            forall|j: int| 0 <= j < i ==> !wanted(#[trigger] table[j]),
        decreases mappings.len() - i,
    {
        if mappings[i].key == key && !mappings[i].with_shift && allow_shift_fallback(
            &mappings[i].action,
        ) {
            proof {
                assert(is_first_match(table, wanted, i as int));
                lemma_first_match_is_unique(table, wanted, i as int);
            }
            return Some(i);
        }
        i += 1;
    }
    proof {
        if has_match(table, wanted) {
            lemma_first_match_exists(table, wanted);
        }
    }
    None
}

/// Inserts `entry`, or replaces the entry already bound to its pair.
/// Returns whether the table changed.
pub fn upsert_action_mapping_in_vec(
    mappings: &mut Vec<ActionMappingEntry>,
    entry: ActionMappingEntry,
) -> (changed: bool)
    ensures
        table_view(final(mappings)@) == upsert_spec(table_view(old(mappings)@), entry@),
        changed == upsert_changes(table_view(old(mappings)@), entry@),
        changed == (table_view(final(mappings)@) != table_view(old(mappings)@)),
        unique_pairs(table_view(old(mappings)@)) ==> unique_pairs(table_view(final(mappings)@)),
{
    let ghost before = table_view(mappings@);
    proof {
        if unique_pairs(before) {
            lemma_upsert_keeps_pairs_unique(before, entry@);
        }
    }
    match find_binding(mappings, entry.key, entry.with_shift) {
        Some(i) => {
            if mappings[i].same_as(&entry) {
                proof {
                    assert(before =~= before.update(i as int, entry@));
                }
                false
            } else {
                mappings.set(i, entry);
                proof {
                    assert(table_view(mappings@) =~= before.update(i as int, entry@));
                    assert(table_view(mappings@)[i as int] != before[i as int]);
                }
                true
            }
        },
        None => {
            mappings.push(entry);
            proof {
                assert(table_view(mappings@) =~= before.push(entry@));
                assert(table_view(mappings@).len() != before.len());
            }
            true
        },
    }
}

/// Upserting an entry whose pair is already bound replaces that entry where
/// it stands, leaves the length of the table as it was, and changes the table
/// exactly when the action differs. Upserting an entry whose pair is new
/// appends it and always changes the table.
pub proof fn law_upsert_replaces_in_place_or_appends(
    table: Seq<ActionMappingEntryView>,
    entry: ActionMappingEntryView,
)
    ensures
        ({
            let wanted = exact(entry.key, entry.with_shift);
            let after = upsert_spec(table, entry);
            let at = first_match(table, wanted);
            &&& has_match(table, wanted) ==> {
                &&& is_first_match(table, wanted, at)
                &&& after.len() == table.len()
                &&& after == table.update(at, entry)
                &&& upsert_changes(table, entry) == (table[at].action != entry.action)
                &&& upsert_changes(table, entry) == (after != table)
            }
            &&& !has_match(table, wanted) ==> {
                &&& after == table.push(entry)
                &&& after.len() == table.len() + 1
                &&& upsert_changes(table, entry)
            }
        }),
{
    let wanted = exact(entry.key, entry.with_shift);
    if has_match(table, wanted) {
        lemma_first_match_exists(table, wanted);
        let at = first_match(table, wanted);
        let after = table.update(at, entry);
        if table[at] == entry {
            assert(after =~= table);
        } else {
            assert(after[at] != table[at]);
        }
    }
}

/// Looks up the binding that answers a logical key under the given Shift
/// state, and hands out a copy of it.
pub fn resolve_action_mapping(
    mappings: &Vec<ActionMappingEntry>,
    js_keycode: u16,
    shift_held: bool,
) -> (found: Option<ActionMappingEntry>)
    ensures
        found is Some <==> resolve_spec(table_view(mappings@), js_keycode, shift_held) is Some,
        found matches Some(entry) ==> resolve_spec(table_view(mappings@), js_keycode, shift_held)
            == Some(entry@),
{
    if let Some(i) = find_binding(mappings, js_keycode, shift_held) {
        return Some(mappings[i].clone());
    }
    if shift_held {
        if let Some(i) = find_fallback(mappings, js_keycode) {
            return Some(mappings[i].clone());
        }
    }
    None
}

/// With unique pairs, a key that has an unshifted binding and no shifted one
/// resolves under Shift to the unshifted binding exactly when that binding's
/// action is neither an input-source switch nor a command; without Shift it
/// always resolves to it.
pub proof fn law_shift_falls_back_to_unshifted_binding(
    table: Seq<ActionMappingEntryView>,
    key: u16,
)
    requires
        unique_pairs(table),
        has_match(table, exact(key, false)),
        !has_match(table, exact(key, true)),
    ensures
        ({
            let unshifted = table[first_match(table, exact(key, false))];
            &&& resolve_spec(table, key, false) == Some(unshifted)
            &&& allows_shift_fallback(unshifted.action) ==> resolve_spec(table, key, true) == Some(
                unshifted,
            )
            &&& !allows_shift_fallback(unshifted.action) ==> resolve_spec(table, key, true)
                is None
        }),
{
    lemma_first_match_exists(table, exact(key, false));
    let p = first_match(table, exact(key, false));
    if allows_shift_fallback(table[p].action) {
        assert(fallback(key)(table[p]));
        assert forall|j: int| 0 <= j < p implies !fallback(key)(#[trigger] table[j]) by {
            assert(!exact(key, false)(table[j]));
        }
        assert(is_first_match(table, fallback(key), p));
        lemma_first_match_is_unique(table, fallback(key), p);
    } else {
        if has_match(table, fallback(key)) {
            lemma_first_match_exists(table, fallback(key));
            let q = first_match(table, fallback(key));
            assert(exact(key, false)(table[q]));
            if q < p {
                assert(!exact(key, false)(table[q]));
            } else if p < q {
                assert(!binds(table[p], table[q].key, table[q].with_shift));
            }
        }
    }
}

/// The table without the entries bound to `(key, with_shift)`.
pub open spec fn remove_spec(
    table: Seq<ActionMappingEntryView>,
    key: u16,
    with_shift: bool,
) -> Seq<ActionMappingEntryView> {
    table.filter(|e: ActionMappingEntryView| !binds(e, key, with_shift))
}

/// Removes every entry bound to `(key, with_shift)`. Returns whether any
/// entry was removed.
pub fn remove_action_mapping_from_vec(
    mappings: &mut Vec<ActionMappingEntry>,
    key: u16,
    with_shift: bool,
) -> (removed: bool)
    ensures
        table_view(final(mappings)@) == remove_spec(table_view(old(mappings)@), key, with_shift),
        removed == has_match(table_view(old(mappings)@), exact(key, with_shift)),
        removed == (final(mappings)@.len() != old(mappings)@.len()),
        !has_match(table_view(final(mappings)@), exact(key, with_shift)),
        unique_pairs(table_view(old(mappings)@)) ==> unique_pairs(table_view(final(mappings)@)),
{
    let ghost before = table_view(mappings@);
    let ghost keep = |e: ActionMappingEntryView| !binds(e, key, with_shift);
    let mut kept: Vec<ActionMappingEntry> = Vec::new();
    let mut i: usize = 0;
    while i < mappings.len()
        invariant
            i <= mappings.len(),
            before == table_view(mappings@),
            before == table_view(old(mappings)@),
            keep == |e: ActionMappingEntryView| !binds(e, key, with_shift),
            table_view(kept@) == before.take(i as int).filter(keep),
            kept@.len() <= i,
            kept@.len() < i <==> has_match(before.take(i as int), exact(key, with_shift)),
        decreases mappings.len() - i,
    {
        proof {
            let longer = before.take(i as int + 1);
            assert(longer.drop_last() =~= before.take(i as int));
            assert(longer.last() == before[i as int]);
            reveal(Seq::filter);
            if has_match(longer, exact(key, with_shift)) && !exact(key, with_shift)(
                before[i as int],
            ) {
                let w = choose|w: int|
                    0 <= w < longer.len() && exact(key, with_shift)(#[trigger] longer[w]);
                assert(exact(key, with_shift)(before.take(i as int)[w]));
            }
            if has_match(before.take(i as int), exact(key, with_shift)) {
                let w = choose|w: int|
                    0 <= w < i && exact(key, with_shift)(#[trigger] before.take(i as int)[w]);
                assert(exact(key, with_shift)(longer[w]));
            }
            if exact(key, with_shift)(before[i as int]) {
                assert(exact(key, with_shift)(longer[i as int]));
            }
        }
        if !(mappings[i].key == key && mappings[i].with_shift == with_shift) {
            kept.push(mappings[i].clone());
            proof {
                assert(table_view(kept@) =~= before.take(i as int).filter(keep).push(
                    before[i as int],
                ));
            }
        }
        i += 1;
    }
    proof {
        assert(before.take(i as int) =~= before);
        lemma_filter_keeps_pairs_unique(before, keep);
        let after = before.filter(keep);
        if has_match(after, exact(key, with_shift)) {
            let w = choose|w: int|
                0 <= w < after.len() && exact(key, with_shift)(#[trigger] after[w]);
            before.lemma_filter_pred(keep, w);
        }
    }
    *mappings = kept;
    i != mappings.len()
}

/// Filtering a table with unique pairs leaves its pairs unique.
pub proof fn lemma_filter_keeps_pairs_unique(
    table: Seq<ActionMappingEntryView>,
    keep: spec_fn(ActionMappingEntryView) -> bool,
)
    ensures
        unique_pairs(table) ==> unique_pairs(table.filter(keep)),
    decreases table.len(),
{
    reveal(Seq::filter);
    if table.len() > 0 && unique_pairs(table) {
        let shorter = table.drop_last();
        assert forall|i: int, j: int| 0 <= i < j < shorter.len() implies !binds(
            #[trigger] shorter[i],
            (#[trigger] shorter[j]).key,
            shorter[j].with_shift,
        ) by {
            assert(!binds(table[i], table[j].key, table[j].with_shift));
        }
        lemma_filter_keeps_pairs_unique(shorter, keep);
        let kept = shorter.filter(keep);
        let after = table.filter(keep);
        if keep(table.last()) {
            assert(after == kept.push(table.last()));
            assert forall|i: int, j: int| 0 <= i < j < after.len() implies !binds(
                #[trigger] after[i],
                (#[trigger] after[j]).key,
                after[j].with_shift,
            ) by {
                if j < kept.len() {
                    assert(!binds(kept[i], kept[j].key, kept[j].with_shift));
                } else {
                    assert(kept.contains(kept[i]));
                    shorter.lemma_filter_contains_rev(keep, kept[i]);
                    let k = choose|k: int| 0 <= k < shorter.len() && shorter[k] == kept[i];
                    let last = table[table.len() - 1];
                    assert(!binds(table[k], last.key, last.with_shift));
                }
            }
        }
    }
}

/// The table with duplicates folded away: the entries are upserted one by
/// one, in order, into an empty table. A pair keeps the position of its
/// first entry and the value of its last.
pub open spec fn normalize_spec(table: Seq<ActionMappingEntryView>) -> Seq<ActionMappingEntryView>
    decreases table.len(),
{
    if table.len() == 0 {
        Seq::empty()
    } else {
        upsert_spec(normalize_spec(table.drop_last()), table.last())
    }
}

/// Folds duplicates away so that every pair is bound at most once.
pub fn normalize_action_mappings(mappings: &mut Vec<ActionMappingEntry>)
    ensures
        table_view(final(mappings)@) == normalize_spec(table_view(old(mappings)@)),
        unique_pairs(table_view(final(mappings)@)),
        unique_pairs(table_view(old(mappings)@)) ==> table_view(final(mappings)@) == table_view(
            old(mappings)@,
        ),
{
    let ghost before = table_view(mappings@);
    let mut deduped: Vec<ActionMappingEntry> = Vec::new();
    let mut i: usize = 0;
    while i < mappings.len()
        invariant
            i <= mappings.len(),
            before == table_view(mappings@),
            table_view(deduped@) == normalize_spec(before.take(i as int)),
            unique_pairs(table_view(deduped@)),
        decreases mappings.len() - i,
    {
        proof {
            let longer = before.take(i as int + 1);
            assert(longer.drop_last() =~= before.take(i as int));
            assert(longer.last() == mappings@[i as int]@);
        }
        upsert_action_mapping_in_vec(&mut deduped, mappings[i].clone());
        i += 1;
    }
    proof {
        assert(before.take(i as int) =~= before);
        lemma_normalize_keeps_unique_table(before);
    }
    *mappings = deduped;
}

/// Normalizing yields unique pairs.
pub proof fn lemma_normalize_makes_pairs_unique(table: Seq<ActionMappingEntryView>)
    ensures
        unique_pairs(normalize_spec(table)),
    decreases table.len(),
{
    if table.len() > 0 {
        lemma_normalize_makes_pairs_unique(table.drop_last());
        lemma_upsert_keeps_pairs_unique(normalize_spec(table.drop_last()), table.last());
    }
}

/// A table whose pairs are unique is its own normal form.
pub proof fn lemma_normalize_keeps_unique_table(table: Seq<ActionMappingEntryView>)
    ensures
        unique_pairs(table) ==> normalize_spec(table) == table,
    decreases table.len(),
{
    if table.len() > 0 && unique_pairs(table) {
        let shorter = table.drop_last();
        assert forall|i: int, j: int| 0 <= i < j < shorter.len() implies !binds(
            #[trigger] shorter[i],
            (#[trigger] shorter[j]).key,
            shorter[j].with_shift,
        ) by {
            assert(!binds(table[i], table[j].key, table[j].with_shift));
        }
        lemma_normalize_keeps_unique_table(shorter);
        let wanted = exact(table.last().key, table.last().with_shift);
        if has_match(shorter, wanted) {
            let w = choose|w: int| 0 <= w < shorter.len() && wanted(#[trigger] shorter[w]);
            assert(!binds(table[w], table[table.len() - 1].key, table[table.len() - 1].with_shift));
        }
        assert(shorter.push(table.last()) =~= table);
    }
}

/// Normalizing twice is normalizing once.
pub proof fn law_normalize_is_idempotent(table: Seq<ActionMappingEntryView>)
    ensures
        normalize_spec(normalize_spec(table)) == normalize_spec(table),
{
    lemma_normalize_makes_pairs_unique(table);
    lemma_normalize_keeps_unique_table(normalize_spec(table));
}

/// Whether `i` is the position of the last entry of `table` that satisfies
/// `wanted`.
pub open spec fn is_last_match(
    table: Seq<ActionMappingEntryView>,
    wanted: spec_fn(ActionMappingEntryView) -> bool,
    i: int,
) -> bool {
    &&& 0 <= i < table.len()
    &&& wanted(table[i])
    &&& forall|j: int| i < j < table.len() ==> !wanted(#[trigger] table[j])
}

/// Normalizing keeps every pair that the table binds and no other, and the
/// last value of each pair wins: what a pair is bound to afterwards is the
/// last entry that the table held for it.
pub proof fn law_normalize_last_value_wins(
    table: Seq<ActionMappingEntryView>,
    key: u16,
    with_shift: bool,
)
    ensures
        has_match(normalize_spec(table), exact(key, with_shift)) == has_match(
            table,
            exact(key, with_shift),
        ),
        forall|last: int| #[trigger]
            is_last_match(table, exact(key, with_shift), last) ==> normalize_spec(
                table,
            )[first_match(normalize_spec(table), exact(key, with_shift))] == table[last],
    decreases table.len(),
{
    let wanted = exact(key, with_shift);
    if table.len() > 0 {
        let shorter = table.drop_last();
        let entry = table.last();
        let folded = normalize_spec(shorter);
        let after = normalize_spec(table);
        let own = exact(entry.key, entry.with_shift);
        law_normalize_last_value_wins(shorter, key, with_shift);
        law_upsert_replaces_in_place_or_appends(folded, entry);
        lemma_normalize_makes_pairs_unique(shorter);
        if binds(entry, key, with_shift) {
            // The pair of the entry that was upserted last: it now holds that entry.
            assert(own == wanted);
            if has_match(folded, wanted) {
                let at = first_match(folded, wanted);
                assert(after[at] == entry);
                assert forall|j: int| 0 <= j < at implies !wanted(#[trigger] after[j]) by {
                    assert(!wanted(folded[j]));
                }
                assert(is_first_match(after, wanted, at));
                lemma_first_match_is_unique(after, wanted, at);
            } else {
                let at = folded.len() as int;
                assert(after[at] == entry);
                assert forall|j: int| 0 <= j < at implies !wanted(#[trigger] after[j]) by {
                    assert(!wanted(folded[j]));
                }
                assert(is_first_match(after, wanted, at));
                lemma_first_match_is_unique(after, wanted, at);
            }
            assert(wanted(table[table.len() - 1]));
            assert forall|last: int| #[trigger]
                is_last_match(table, wanted, last) implies after[first_match(after, wanted)]
                == table[last] by {
                if last < table.len() - 1 {
                    assert(!wanted(table[table.len() - 1]));
                }
            }
        } else {
            // Another pair: upserting the entry left its binding as it was.
            assert forall|j: int| 0 <= j < after.len() && wanted(#[trigger] after[j]) implies j
                < folded.len() && folded[j] == after[j] by {
                if has_match(folded, own) {
                    assert(after == folded.update(first_match(folded, own), entry));
                } else {
                    assert(after == folded.push(entry));
                }
            }
            assert forall|j: int| 0 <= j < folded.len() && wanted(#[trigger] folded[j]) implies
                after[j] == folded[j] by {
                if has_match(folded, own) {
                    lemma_first_match_exists(folded, own);
                    assert(own(folded[first_match(folded, own)]));
                }
            }
            if has_match(after, wanted) {
                let w = choose|w: int| 0 <= w < after.len() && wanted(#[trigger] after[w]);
                assert(wanted(folded[w]));
            }
            if has_match(folded, wanted) {
                lemma_first_match_exists(folded, wanted);
                let at = first_match(folded, wanted);
                assert(wanted(after[at]));
                assert forall|j: int| 0 <= j < at implies !wanted(#[trigger] after[j]) by {
                    if wanted(after[j]) {
                        assert(wanted(folded[j]));
                    }
                }
                assert(is_first_match(after, wanted, at));
                lemma_first_match_is_unique(after, wanted, at);
            }
            if has_match(table, wanted) {
                let w = choose|w: int| 0 <= w < table.len() && wanted(#[trigger] table[w]);
                assert(wanted(shorter[w]));
            }
            if has_match(shorter, wanted) {
                let w = choose|w: int| 0 <= w < shorter.len() && wanted(#[trigger] shorter[w]);
                assert(wanted(table[w]));
            }
            assert forall|last: int| #[trigger]
                is_last_match(table, wanted, last) implies after[first_match(after, wanted)]
                == table[last] by {
                assert(last < table.len() - 1);
                assert forall|j: int| last < j < shorter.len() implies !wanted(
                    #[trigger] shorter[j],
                ) by {
                    assert(!wanted(table[j]));
                }
                assert(is_last_match(shorter, wanted, last));
                assert(wanted(shorter[last]));
            }
        }
    } else {
        assert(!has_match(table, wanted));
        assert(!has_match(normalize_spec(table), wanted));
    }
}

/// Identifier of the plain ABC keyboard layout.
pub const DEFAULT_ABC_INPUT_SOURCE_ID: &'static str = "com.apple.keylayout.ABC";

/// Identifier of the WeType pinyin input method.
pub const DEFAULT_WECHAT_INPUT_SOURCE_ID: &'static str = "com.tencent.inputmethod.wetype.pinyin";

/// An unshifted binding of `key` to a cursor movement.
pub open spec fn directional_binding(
    key: u16,
    action: DirectionalActionKind,
) -> ActionMappingEntryView {
    ActionMappingEntryView {
        key,
        with_shift: false,
        action: ActionConfigView::Directional { action },
    }
}

/// An unshifted binding of `key` to a repeated vertical move.
pub open spec fn jump_binding(
    key: u16,
    direction: JumpDirection,
    count: u8,
) -> ActionMappingEntryView {
    ActionMappingEntryView {
        key,
        with_shift: false,
        action: ActionConfigView::Jump { direction, count },
    }
}

/// An unshifted binding of `key` to an editing action.
pub open spec fn independent_binding(
    key: u16,
    action: IndependentActionKind,
) -> ActionMappingEntryView {
    ActionMappingEntryView {
        key,
        with_shift: false,
        action: ActionConfigView::Independent { action },
    }
}

/// An unshifted binding of `key` to an input-source switch.
pub open spec fn input_source_binding(
    key: u16,
    input_source_id: Seq<char>,
) -> ActionMappingEntryView {
    ActionMappingEntryView {
        key,
        with_shift: false,
        action: ActionConfigView::InputSource { input_source_id },
    }
}

/// The bindings that every platform starts with: vi-style cursor keys,
/// word and line motion, ten-line jumps and three editing actions.
pub open spec fn default_table() -> Seq<ActionMappingEntryView> {
    seq![
        directional_binding(JS_H_KEYCODE, DirectionalActionKind::Left),
        directional_binding(JS_J_KEYCODE, DirectionalActionKind::Down),
        directional_binding(JS_K_KEYCODE, DirectionalActionKind::Up),
        directional_binding(JS_L_KEYCODE, DirectionalActionKind::Right),
        directional_binding(JS_P_KEYCODE, DirectionalActionKind::WordForward),
        directional_binding(JS_Y_KEYCODE, DirectionalActionKind::WordBack),
        directional_binding(JS_A_KEYCODE, DirectionalActionKind::Home),
        directional_binding(JS_E_KEYCODE, DirectionalActionKind::End),
        jump_binding(JS_U_KEYCODE, JumpDirection::Up, 10),
        jump_binding(JS_D_KEYCODE, JumpDirection::Down, 10),
        independent_binding(JS_I_KEYCODE, IndependentActionKind::Backspace),
        independent_binding(JS_N_KEYCODE, IndependentActionKind::InsertQuotes),
        independent_binding(JS_O_KEYCODE, IndependentActionKind::NextLine),
    ]
}

/// The bindings that macOS adds to the common ones: comma and period switch
/// between two input sources.
pub open spec fn macos_extra_defaults() -> Seq<ActionMappingEntryView> {
    seq![
        input_source_binding(DEFAULT_ABC_KEYCODE, DEFAULT_ABC_INPUT_SOURCE_ID@),
        input_source_binding(DEFAULT_WECHAT_KEYCODE, DEFAULT_WECHAT_INPUT_SOURCE_ID@),
    ]
}

/// The table a fresh installation starts with on `platform`.
pub open spec fn default_table_for(platform: Platform) -> Seq<ActionMappingEntryView> {
    match platform {
        Platform::MacOs => default_table() + macos_extra_defaults(),
        Platform::Windows => default_table(),
    }
}

fn directional_entry(key: u16, action: DirectionalActionKind) -> (entry: ActionMappingEntry)
    ensures
        entry@ == directional_binding(key, action),
{
    ActionMappingEntry { key, with_shift: false, action: ActionConfig::Directional { action } }
}

fn jump_entry(key: u16, direction: JumpDirection, count: u8) -> (entry: ActionMappingEntry)
    ensures
        entry@ == jump_binding(key, direction, count),
{
    ActionMappingEntry { key, with_shift: false, action: ActionConfig::Jump { direction, count } }
}

fn independent_entry(key: u16, action: IndependentActionKind) -> (entry: ActionMappingEntry)
    ensures
        entry@ == independent_binding(key, action),
{
    ActionMappingEntry { key, with_shift: false, action: ActionConfig::Independent { action } }
}

fn input_source_entry(key: u16, input_source_id: &str) -> (entry: ActionMappingEntry)
    ensures
        entry@ == input_source_binding(key, input_source_id@),
{
    ActionMappingEntry {
        key,
        with_shift: false,
        action: ActionConfig::InputSource { input_source_id: input_source_id.to_owned() },
    }
}

/// The bindings common to every platform.
pub fn default_action_mappings() -> (defaults: Vec<ActionMappingEntry>)
    ensures
        table_view(defaults@) == default_table(),
        unique_pairs(table_view(defaults@)),
{
    let mut defaults: Vec<ActionMappingEntry> = Vec::new();
    defaults.push(directional_entry(JS_H_KEYCODE, DirectionalActionKind::Left));
    defaults.push(directional_entry(JS_J_KEYCODE, DirectionalActionKind::Down));
    defaults.push(directional_entry(JS_K_KEYCODE, DirectionalActionKind::Up));
    defaults.push(directional_entry(JS_L_KEYCODE, DirectionalActionKind::Right));
    defaults.push(directional_entry(JS_P_KEYCODE, DirectionalActionKind::WordForward));
    defaults.push(directional_entry(JS_Y_KEYCODE, DirectionalActionKind::WordBack));
    defaults.push(directional_entry(JS_A_KEYCODE, DirectionalActionKind::Home));
    defaults.push(directional_entry(JS_E_KEYCODE, DirectionalActionKind::End));
    defaults.push(jump_entry(JS_U_KEYCODE, JumpDirection::Up, 10));
    defaults.push(jump_entry(JS_D_KEYCODE, JumpDirection::Down, 10));
    defaults.push(independent_entry(JS_I_KEYCODE, IndependentActionKind::Backspace));
    defaults.push(independent_entry(JS_N_KEYCODE, IndependentActionKind::InsertQuotes));
    defaults.push(independent_entry(JS_O_KEYCODE, IndependentActionKind::NextLine));
    proof {
        assert(table_view(defaults@) =~= default_table());
    }
    defaults
}

/// The bindings a fresh installation starts with on `platform`.
pub fn default_action_mappings_for(platform: Platform) -> (defaults: Vec<ActionMappingEntry>)
    ensures
        table_view(defaults@) == default_table_for(platform),
        unique_pairs(table_view(defaults@)),
{
    let mut defaults = default_action_mappings();
    match platform {
        Platform::MacOs => {
            defaults.push(input_source_entry(DEFAULT_ABC_KEYCODE, DEFAULT_ABC_INPUT_SOURCE_ID));
            defaults.push(
                input_source_entry(DEFAULT_WECHAT_KEYCODE, DEFAULT_WECHAT_INPUT_SOURCE_ID),
            );
            proof {
                assert(table_view(defaults@) =~= default_table_for(platform));
            }
        },
        Platform::Windows => {},
    }
    defaults
}

/// Copies a table.
pub fn clone_table(mappings: &Vec<ActionMappingEntry>) -> (copy: Vec<ActionMappingEntry>)
    ensures
        table_view(copy@) == table_view(mappings@),
{
    let mut copy: Vec<ActionMappingEntry> = Vec::new();
    let mut i: usize = 0;
    while i < mappings.len()
        invariant
            i <= mappings.len(),
            table_view(copy@) == table_view(mappings@).take(i as int),
        decreases mappings.len() - i,
    {
        let ghost sofar = table_view(copy@);
        let entry = mappings[i].clone();
        copy.push(entry);
        proof {
            assert(table_view(copy@) =~= sofar.push(entry@));
            assert(table_view(mappings@)[i as int] == mappings@[i as int]@);
            assert(sofar.push(entry@) =~= table_view(mappings@).take(i as int + 1));
        }
        i += 1;
    }
    proof {
        assert(table_view(mappings@).take(i as int) =~= table_view(mappings@));
    }
    copy
}

} // verus!
