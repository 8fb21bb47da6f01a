//! The mapping table as text: a commented YAML list with one block per
//! binding, each key code followed by the name of its key.

use crate::action::{
    ActionConfig, ActionConfigView, ActionMappingEntry, ActionMappingEntryView,
    DirectionalActionKind, IndependentActionKind, JumpDirection,
};
use crate::table::table_view;
use vstd::prelude::*;
use vstd::string::StringExecFns;

verus! {

/// `String::push` appends one character to the end of the string.
pub assume_specification[ String::push ](text: &mut String, ch: char)
    ensures
        final(text)@ == old(text)@.push(ch),
;

/// The character of a decimal digit.
pub open spec fn digit_char(digit: int) -> char {
    ('0' as int + digit) as char
}

/// A natural number in decimal, without leading zeros.
pub open spec fn decimal(n: nat) -> Seq<char>
    decreases n,
{
    if n < 10 {
        seq![digit_char(n as int)]
    } else {
        decimal(n / 10).push(digit_char((n % 10) as int))
    }
}

fn digit(d: u16) -> (ch: char)
    requires
        d < 10,
    ensures
        ch == digit_char(d as int),
{
    (d as u8 + 48) as char
}

/// Appends `n` in decimal.
pub fn push_decimal(text: &mut String, n: u16)
    ensures
        final(text)@ == old(text)@ + decimal(n as nat),
{
    let ghost before = text@;
    if n >= 10000 {
        text.push(digit(n / 10000));
    }
    if n >= 1000 {
        text.push(digit((n / 1000) % 10));
    }
    if n >= 100 {
        text.push(digit((n / 100) % 10));
    }
    if n >= 10 {
        text.push(digit((n / 10) % 10));
    }
    text.push(digit(n % 10));
    proof {
        let m = n as nat;
        reveal_with_fuel(decimal, 5);
        assert(text@ =~= before + decimal(m));
    }
}

/// The name of the key with the given logical code, as shown in comments:
/// digits and letters by their character, a few others by a word or their
/// symbol, and every other code as `Key` followed by the code.
pub open spec fn key_name(key: u16) -> Seq<char> {
    if 48 <= key <= 57 || 65 <= key <= 90 {
        seq![key as char]
    } else if key == 8 {
        "Del"@
    } else if key == 13 {
        "Enter"@
    } else if key == 37 {
        "Left"@
    } else if key == 38 {
        "Up"@
    } else if key == 39 {
        "Right"@
    } else if key == 40 {
        "Down"@
    } else if key == 186 {
        ";"@
    } else if key == 187 {
        "="@
    } else if key == 188 {
        ","@
    } else if key == 189 {
        "-"@
    } else if key == 190 {
        "."@
    } else if key == 191 {
        "/"@
    } else if key == 220 {
        "\\"@
    } else if key == 222 {
        "'"@
    } else {
        "Key"@ + decimal(key as nat)
    }
}

/// The name of the key with the given logical code.
pub fn js_keycode_name(key: u16) -> (name: String)
    ensures
        name@ == key_name(key),
{
    if (48 <= key && key <= 57) || (65 <= key && key <= 90) {
        let mut name = String::new();
        name.push((key as u8) as char);
        assert(name@ =~= seq![key as char]);
        return name;
    }
    match key {
        8 => "Del".to_owned(),
        13 => "Enter".to_owned(),
        37 => "Left".to_owned(),
        38 => "Up".to_owned(),
        39 => "Right".to_owned(),
        40 => "Down".to_owned(),
        186 => ";".to_owned(),
        187 => "=".to_owned(),
        188 => ",".to_owned(),
        189 => "-".to_owned(),
        190 => ".".to_owned(),
        191 => "/".to_owned(),
        220 => "\\".to_owned(),
        222 => "'".to_owned(),
        _ => {
            let mut name = "Key".to_owned();
            push_decimal(&mut name, key);
            name
        },
    }
}

/// `text` with every single quote doubled.
pub open spec fn doubled_quotes(text: Seq<char>) -> Seq<char>
    decreases text.len(),
{
    if text.len() == 0 {
        text
    } else if text.last() == '\'' {
        doubled_quotes(text.drop_last()).push('\'').push('\'')
    } else {
        doubled_quotes(text.drop_last()).push(text.last())
    }
}

/// `text` as a single-quoted YAML scalar: wrapped in single quotes, with
/// every single quote inside doubled.
pub open spec fn quoted(text: Seq<char>) -> Seq<char> {
    seq!['\''] + doubled_quotes(text) + seq!['\'']
}

/// Appends `value` as a single-quoted YAML scalar.
pub fn push_quoted(text: &mut String, value: &str)
    ensures
        final(text)@ == old(text)@ + quoted(value@),
{
    let ghost before = text@;
    text.push('\'');
    let n = value.unicode_len();
    let mut i: usize = 0;
    while i < n
        invariant
            i <= n,
            n == value@.len(),
            text@ == before + seq!['\''] + doubled_quotes(value@.take(i as int)),
        decreases n - i,
    {
        let c = value.get_char(i);
        proof {
            assert(value@.take(i as int + 1).drop_last() =~= value@.take(i as int));
        }
        if c == '\'' {
            text.push('\'');
            text.push('\'');
        } else {
            text.push(c);
        }
        i += 1;
        proof {
            assert(text@ =~= before + seq!['\''] + doubled_quotes(value@.take(i as int)));
        }
    }
    proof {
        assert(value@.take(i as int) =~= value@);
    }
    text.push('\'');
    proof {
        assert(text@ =~= before + quoted(value@));
    }
}

/// Wraps `value` in single quotes and doubles every single quote inside.
pub fn yaml_quote(value: &str) -> (text: String)
    ensures
        text@ == quoted(value@),
{
    let mut text = String::new();
    push_quoted(&mut text, value);
    assert(text@ =~= quoted(value@));
    text
}

/// The name a cursor movement is written with.
pub open spec fn directional_name(action: DirectionalActionKind) -> Seq<char> {
    match action {
        DirectionalActionKind::Left => "left"@,
        DirectionalActionKind::Right => "right"@,
        DirectionalActionKind::Up => "up"@,
        DirectionalActionKind::Down => "down"@,
        DirectionalActionKind::WordForward => "word_forward"@,
        DirectionalActionKind::WordBack => "word_back"@,
        DirectionalActionKind::Home => "home"@,
        DirectionalActionKind::End => "end"@,
    }
}

/// The name a cursor movement is written with.
pub fn directional_action_name(action: &DirectionalActionKind) -> (name: &'static str)
    ensures
        name@ == directional_name(*action),
{
    match action {
        DirectionalActionKind::Left => "left",
        DirectionalActionKind::Right => "right",
        DirectionalActionKind::Up => "up",
        DirectionalActionKind::Down => "down",
        DirectionalActionKind::WordForward => "word_forward",
        DirectionalActionKind::WordBack => "word_back",
        DirectionalActionKind::Home => "home",
        DirectionalActionKind::End => "end",
    }
}

/// The name a jump direction is written with.
pub open spec fn jump_name(direction: JumpDirection) -> Seq<char> {
    match direction {
        JumpDirection::Up => "up"@,
        JumpDirection::Down => "down"@,
    }
}

/// The name a jump direction is written with.
pub fn jump_direction_name(direction: &JumpDirection) -> (name: &'static str)
    ensures
        name@ == jump_name(*direction),
{
    match direction {
        JumpDirection::Up => "up",
        JumpDirection::Down => "down",
    }
}

/// The name an editing action is written with.
pub open spec fn independent_name(action: IndependentActionKind) -> Seq<char> {
    match action {
        IndependentActionKind::Backspace => "backspace"@,
        IndependentActionKind::NextLine => "next_line"@,
        IndependentActionKind::InsertQuotes => "insert_quotes"@,
    }
}

/// The name an editing action is written with.
pub fn independent_action_name(action: &IndependentActionKind) -> (name: &'static str)
    ensures
        name@ == independent_name(*action),
{
    match action {
        IndependentActionKind::Backspace => "backspace",
        IndependentActionKind::NextLine => "next_line",
        IndependentActionKind::InsertQuotes => "insert_quotes",
    }
}

/// The three comment lines that every rendered table starts with.
pub open spec fn header_text() -> Seq<char> {
    "# HyperCapslock action mappings\n"@ + "# key uses JavaScript keyCode\n"@
        + "# with_shift=false -> Caps+Key, with_shift=true -> Caps+Shift+Key\n"@
}

/// `true` or `false`.
pub open spec fn bool_text(value: bool) -> Seq<char> {
    if value {
        "true"@
    } else {
        "false"@
    }
}

/// The lines that describe an action, indented under `action:`.
pub open spec fn action_text(action: ActionConfigView) -> Seq<char> {
    match action {
        ActionConfigView::Directional { action } => "    kind: directional\n"@ + "    action: "@
            + directional_name(action) + "\n"@,
        ActionConfigView::Jump { direction, count } => "    kind: jump\n"@ + "    direction: "@
            + jump_name(direction) + "\n"@ + "    count: "@ + decimal(count as nat) + "\n"@,
        ActionConfigView::Independent { action } => "    kind: independent\n"@ + "    action: "@
            + independent_name(action) + "\n"@,
        ActionConfigView::InputSource { input_source_id } => "    kind: input_source\n"@
            + "    input_source_id: "@ + quoted(input_source_id) + "\n"@,
        ActionConfigView::Command { command } => "    kind: command\n"@ + "    command: "@
            + quoted(command) + "\n"@,
    }
}

/// The block of lines of one binding.
pub open spec fn entry_text(entry: ActionMappingEntryView) -> Seq<char> {
    "- key: "@ + decimal(entry.key as nat) + " # "@ + key_name(entry.key) + "\n"@
        + "  with_shift: "@ + bool_text(entry.with_shift) + "\n"@ + "  action:\n"@ + action_text(
        entry.action,
    )
}

/// The blocks of all bindings, in table order.
pub open spec fn entries_text(table: Seq<ActionMappingEntryView>) -> Seq<char>
    decreases table.len(),
{
    if table.len() == 0 {
        Seq::empty()
    } else {
        entries_text(table.drop_last()) + entry_text(table.last())
    }
}

/// The whole rendered table: the header, then one block per binding.
pub open spec fn rendered(table: Seq<ActionMappingEntryView>) -> Seq<char> {
    header_text() + entries_text(table)
}

fn push_action(text: &mut String, action: &ActionConfig)
    ensures
        final(text)@ == old(text)@ + action_text(action@),
{
    let ghost before = text@;
    match action {
        ActionConfig::Directional { action } => {
            text.append("    kind: directional\n");
            text.append("    action: ");
            text.append(directional_action_name(action));
            text.append("\n");
        },
        ActionConfig::Jump { direction, count } => {
            text.append("    kind: jump\n");
            text.append("    direction: ");
            text.append(jump_direction_name(direction));
            text.append("\n");
            text.append("    count: ");
            push_decimal(text, *count as u16);
            text.append("\n");
        },
        ActionConfig::Independent { action } => {
            text.append("    kind: independent\n");
            text.append("    action: ");
            text.append(independent_action_name(action));
            text.append("\n");
        },
        ActionConfig::InputSource { input_source_id } => {
            text.append("    kind: input_source\n");
            text.append("    input_source_id: ");
            push_quoted(text, input_source_id.as_str());
            text.append("\n");
        },
        ActionConfig::Command { command } => {
            text.append("    kind: command\n");
            text.append("    command: ");
            push_quoted(text, command.as_str());
            text.append("\n");
        },
    }
    proof {
        assert(text@ =~= before + action_text(action@));
    }
}

fn push_entry(text: &mut String, entry: &ActionMappingEntry)
    ensures
        final(text)@ == old(text)@ + entry_text(entry@),
{
    let ghost before = text@;
    text.append("- key: ");
    push_decimal(text, entry.key);
    text.append(" # ");
    let name = js_keycode_name(entry.key);
    text.append(name.as_str());
    text.append("\n");
    text.append("  with_shift: ");
    if entry.with_shift {
        text.append("true");
    } else {
        text.append("false");
    }
    text.append("\n");
    text.append("  action:\n");
    let ghost head = text@;
    push_action(text, &entry.action);
    proof {
        assert(head =~= before + ("- key: "@ + decimal(entry.key as nat) + " # "@ + key_name(
            entry.key,
        ) + "\n"@ + "  with_shift: "@ + bool_text(entry.with_shift) + "\n"@ + "  action:\n"@));
        assert(text@ =~= before + entry_text(entry@));
    }
}

/// Renders the table as commented YAML.
pub fn render_action_mappings_yaml_with_comments(mappings: &[ActionMappingEntry]) -> (text:
    String)
    ensures
        text@ == rendered(table_view(mappings@)),
{
    let ghost table = table_view(mappings@);
    let mut text = String::new();
    text.append("# HyperCapslock action mappings\n");
    text.append("# key uses JavaScript keyCode\n");
    text.append("# with_shift=false -> Caps+Key, with_shift=true -> Caps+Shift+Key\n");
    assert(text@ =~= header_text() + entries_text(table.take(0)));
    let mut i: usize = 0;
    while i < mappings.len()
        invariant
            i <= mappings.len(),
            table == table_view(mappings@),
            text@ == header_text() + entries_text(table.take(i as int)),
        decreases mappings.len() - i,
    {
        proof {
            let longer = table.take(i as int + 1);
            assert(longer.drop_last() =~= table.take(i as int));
            assert(longer.last() == mappings@[i as int]@);
        }
        push_entry(&mut text, &mappings[i]);
        i += 1;
        proof {
            assert(text@ =~= header_text() + entries_text(table.take(i as int)));
        }
    }
    proof {
        assert(table.take(i as int) =~= table);
    }
    text
}

} // verus!
