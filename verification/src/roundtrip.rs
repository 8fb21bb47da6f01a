//! Proof that rendering loses nothing: the rendered text determines the
//! table, entry by entry and in order.

use crate::action::{ActionConfigView, ActionMappingEntryView};
use crate::render::{
    action_text, bool_text, decimal, digit_char, directional_name, doubled_quotes, entries_text,
    entry_text, header_text, independent_name, jump_name, key_name, quoted, rendered,
};
use vstd::prelude::*;

verus! {

/// Joining texts gives the same text however the joins are grouped.
proof fn lemma_regroup(a: Seq<char>, b: Seq<char>, c: Seq<char>)
    ensures
        (a + b) + c == a + (b + c),
{
    assert((a + b) + c =~= a + (b + c));
}

/// Equal texts with a common head have equal tails.
proof fn lemma_cancel_head(head: Seq<char>, a: Seq<char>, b: Seq<char>)
    requires
        head + a == head + b,
    ensures
        a == b,
{
    assert(a =~= (head + a).skip(head.len() as int));
    assert(b =~= (head + b).skip(head.len() as int));
}

/// Equal texts whose heads have equal length have equal heads and tails.
proof fn lemma_split_at_equal_length(
    head_a: Seq<char>,
    a: Seq<char>,
    head_b: Seq<char>,
    b: Seq<char>,
)
    requires
        head_a + a == head_b + b,
        head_a.len() == head_b.len(),
    ensures
        head_a == head_b,
        a == b,
{
    assert(head_a =~= (head_a + a).take(head_a.len() as int));
    assert(head_b =~= (head_b + b).take(head_b.len() as int));
    assert(a =~= (head_a + a).skip(head_a.len() as int));
    assert(b =~= (head_b + b).skip(head_b.len() as int));
}

/// Whether a character is a decimal digit.
spec fn is_digit(ch: char) -> bool {
    '0' <= ch <= '9'
}

/// A number in decimal is a non-empty run of digits.
proof fn lemma_decimal_is_digits(n: nat)
    ensures
        decimal(n).len() >= 1,
        forall|i: int| 0 <= i < decimal(n).len() ==> is_digit(#[trigger] decimal(n)[i]),
    decreases n,
{
    if n >= 10 {
        lemma_decimal_is_digits(n / 10);
    }
}

/// Different numbers read differently in decimal.
proof fn lemma_decimal_is_injective(n: nat, m: nat)
    requires
        decimal(n) == decimal(m),
    ensures
        n == m,
    decreases n,
{
    lemma_decimal_is_digits(n / 10);
    lemma_decimal_is_digits(m / 10);
    if n < 10 && m < 10 {
        assert(decimal(n) == seq![digit_char(n as int)]);
        assert(decimal(m) == seq![digit_char(m as int)]);
        assert(seq![digit_char(n as int)][0] == digit_char(n as int));
        assert(seq![digit_char(m as int)][0] == digit_char(m as int));
        lemma_digit_char_is_injective(n as int, m as int);
    } else if n >= 10 && m >= 10 {
        let a = decimal(n / 10);
        let b = decimal(m / 10);
        assert(decimal(n).len() == a.len() + 1);
        assert(decimal(m).len() == b.len() + 1);
        assert(a =~= decimal(n).drop_last());
        assert(b =~= decimal(m).drop_last());
        assert(decimal(n).last() == digit_char((n % 10) as int));
        assert(decimal(m).last() == digit_char((m % 10) as int));
        assert(a == b);
        lemma_decimal_is_injective(n / 10, m / 10);
        assert(n / 10 == m / 10);
        lemma_digit_char_is_injective((n % 10) as int, (m % 10) as int);
        assert(n % 10 == m % 10);
        assert(n == 10 * (n / 10) + n % 10);
        assert(m == 10 * (m / 10) + m % 10);
    } else if n < 10 {
        assert(decimal(n).len() == 1);
        assert(decimal(m).len() == decimal(m / 10).len() + 1);
    } else {
        assert(decimal(m).len() == 1);
        assert(decimal(n).len() == decimal(n / 10).len() + 1);
    }
}

/// Different digits have different characters.
proof fn lemma_digit_char_is_injective(a: int, b: int)
    requires
        0 <= a < 10,
        0 <= b < 10,
        digit_char(a) == digit_char(b),
    ensures
        a == b,
{
    assert(digit_char(a) as int == '0' as int + a);
    assert(digit_char(b) as int == '0' as int + b);
}

/// A number followed by something that is no digit can be read back: equal
/// texts of this shape hold the same number and the same rest.
proof fn lemma_decimal_reads_back(n: nat, a: Seq<char>, m: nat, b: Seq<char>)
    requires
        decimal(n) + a == decimal(m) + b,
        a.len() > 0 && !is_digit(a[0]),
        b.len() > 0 && !is_digit(b[0]),
    ensures
        n == m,
        a == b,
{
    lemma_decimal_is_digits(n);
    lemma_decimal_is_digits(m);
    let dn = decimal(n);
    let dm = decimal(m);
    if dn.len() < dm.len() {
        assert((dn + a)[dn.len() as int] == a[0]);
        assert((dm + b)[dn.len() as int] == dm[dn.len() as int]);
    }
    if dm.len() < dn.len() {
        assert((dm + b)[dm.len() as int] == b[0]);
        assert((dn + a)[dm.len() as int] == dn[dm.len() as int]);
    }
    lemma_split_at_equal_length(dn, a, dm, b);
    lemma_decimal_is_injective(n, m);
}

/// What one character becomes when quotes are doubled.
spec fn doubled_char(ch: char) -> Seq<char> {
    if ch == '\'' {
        seq!['\'', '\'']
    } else {
        seq![ch]
    }
}

/// Doubling goes character by character from the front as well.
proof fn lemma_doubled_from_front(text: Seq<char>)
    requires
        text.len() > 0,
    ensures
        doubled_quotes(text) == doubled_char(text[0]) + doubled_quotes(text.drop_first()),
    decreases text.len(),
{
    if text.len() == 1 {
        assert(text.drop_last() =~= Seq::<char>::empty());
        assert(text.drop_first() =~= Seq::<char>::empty());
        assert(doubled_quotes(text) =~= doubled_char(text[0]) + doubled_quotes(
            text.drop_first(),
        ));
    } else {
        let front = text.drop_last();
        lemma_doubled_from_front(front);
        assert(front.drop_first() =~= text.drop_first().drop_last());
        assert(text.drop_first().last() == text.last());
        assert(front[0] == text[0]);
        assert(doubled_quotes(text) =~= doubled_char(text[0]) + doubled_quotes(
            text.drop_first(),
        ));
    }
}

/// A text with doubled quotes, followed by a single quote that is not
/// itself followed by a quote, can be read back.
proof fn lemma_doubled_reads_back(s: Seq<char>, a: Seq<char>, t: Seq<char>, b: Seq<char>)
    requires
        doubled_quotes(s) + a == doubled_quotes(t) + b,
        a.len() >= 2 && a[0] == '\'' && a[1] != '\'',
        b.len() >= 2 && b[0] == '\'' && b[1] != '\'',
    ensures
        s == t,
        a == b,
    decreases s.len(),
{
    let left = doubled_quotes(s) + a;
    let right = doubled_quotes(t) + b;
    if s.len() == 0 {
        assert(left =~= a);
        if t.len() > 0 {
            lemma_doubled_from_front(t);
            let rest = doubled_quotes(t.drop_first()) + b;
            assert(right =~= doubled_char(t[0]) + rest);
            assert(right[0] == doubled_char(t[0])[0]);
            if t[0] == '\'' {
                assert(right[1] == '\'');
            }
        } else {
            assert(right =~= b);
        }
    } else {
        lemma_doubled_from_front(s);
        let rest_s = doubled_quotes(s.drop_first()) + a;
        assert(left =~= doubled_char(s[0]) + rest_s);
        assert(left[0] == doubled_char(s[0])[0]);
        if t.len() == 0 {
            assert(right =~= b);
            if s[0] == '\'' {
                assert(left[1] == '\'');
            }
        } else {
            lemma_doubled_from_front(t);
            let rest_t = doubled_quotes(t.drop_first()) + b;
            assert(right =~= doubled_char(t[0]) + rest_t);
            assert(right[0] == doubled_char(t[0])[0]);
            assert(s[0] == t[0]);
            lemma_cancel_head(doubled_char(s[0]), rest_s, rest_t);
            lemma_doubled_reads_back(s.drop_first(), a, t.drop_first(), b);
            assert(s =~= seq![s[0]] + s.drop_first());
            assert(t =~= seq![t[0]] + t.drop_first());
        }
    }
}

/// A quoted text followed by a line break can be read back.
proof fn lemma_quoted_reads_back(s: Seq<char>, a: Seq<char>, t: Seq<char>, b: Seq<char>)
    requires
        quoted(s) + ("\n"@ + a) == quoted(t) + ("\n"@ + b),
    ensures
        s == t,
        a == b,
{
    reveal_strlit("\n");
    let tail_s = seq!['\''] + ("\n"@ + a);
    let tail_t = seq!['\''] + ("\n"@ + b);
    assert(quoted(s) + ("\n"@ + a) =~= seq!['\''] + (doubled_quotes(s) + tail_s));
    assert(quoted(t) + ("\n"@ + b) =~= seq!['\''] + (doubled_quotes(t) + tail_t));
    lemma_cancel_head(seq!['\''], doubled_quotes(s) + tail_s, doubled_quotes(t) + tail_t);
    lemma_doubled_reads_back(s, tail_s, t, tail_t);
    lemma_cancel_head(seq!['\''], "\n"@ + a, "\n"@ + b);
    lemma_cancel_head("\n"@, a, b);
}

/// The name of a cursor movement followed by a line break can be read back.
proof fn lemma_directional_name_reads_back(
    d1: crate::action::DirectionalActionKind,
    a: Seq<char>,
    d2: crate::action::DirectionalActionKind,
    b: Seq<char>,
)
    requires
        directional_name(d1) + ("\n"@ + a) == directional_name(d2) + ("\n"@ + b),
    ensures
        d1 == d2,
        a == b,
{
    reveal_strlit("\n");
    reveal_strlit("left");
    reveal_strlit("right");
    reveal_strlit("up");
    reveal_strlit("down");
    reveal_strlit("word_forward");
    reveal_strlit("word_back");
    reveal_strlit("home");
    reveal_strlit("end");
    let left = directional_name(d1) + ("\n"@ + a);
    let right = directional_name(d2) + ("\n"@ + b);
    assert(left[0] == directional_name(d1)[0]);
    assert(right[0] == directional_name(d2)[0]);
    if directional_name(d1).len() > 5 && directional_name(d2).len() > 5 {
        assert(left[5] == directional_name(d1)[5]);
        assert(right[5] == directional_name(d2)[5]);
    }
    assert(d1 == d2);
    lemma_cancel_head(directional_name(d1), "\n"@ + a, "\n"@ + b);
    lemma_cancel_head("\n"@, a, b);
}

/// The name of a jump direction followed by a line break can be read back.
proof fn lemma_jump_name_reads_back(
    d1: crate::action::JumpDirection,
    a: Seq<char>,
    d2: crate::action::JumpDirection,
    b: Seq<char>,
)
    requires
        jump_name(d1) + ("\n"@ + a) == jump_name(d2) + ("\n"@ + b),
    ensures
        d1 == d2,
        a == b,
{
    reveal_strlit("\n");
    reveal_strlit("up");
    reveal_strlit("down");
    let left = jump_name(d1) + ("\n"@ + a);
    let right = jump_name(d2) + ("\n"@ + b);
    assert(left[0] == jump_name(d1)[0]);
    assert(right[0] == jump_name(d2)[0]);
    assert(d1 == d2);
    lemma_cancel_head(jump_name(d1), "\n"@ + a, "\n"@ + b);
    lemma_cancel_head("\n"@, a, b);
}

/// The name of an editing action followed by a line break can be read back.
proof fn lemma_independent_name_reads_back(
    k1: crate::action::IndependentActionKind,
    a: Seq<char>,
    k2: crate::action::IndependentActionKind,
    b: Seq<char>,
)
    requires
        independent_name(k1) + ("\n"@ + a) == independent_name(k2) + ("\n"@ + b),
    ensures
        k1 == k2,
        a == b,
{
    reveal_strlit("\n");
    reveal_strlit("backspace");
    reveal_strlit("next_line");
    reveal_strlit("insert_quotes");
    let left = independent_name(k1) + ("\n"@ + a);
    let right = independent_name(k2) + ("\n"@ + b);
    assert(left[0] == independent_name(k1)[0]);
    assert(right[0] == independent_name(k2)[0]);
    assert(k1 == k2);
    lemma_cancel_head(independent_name(k1), "\n"@ + a, "\n"@ + b);
    lemma_cancel_head("\n"@, a, b);
}

/// The line that names the kind of an action.
spec fn kind_line(action: ActionConfigView) -> Seq<char> {
    match action {
        ActionConfigView::Directional { .. } => "    kind: directional\n"@,
        ActionConfigView::Jump { .. } => "    kind: jump\n"@,
        ActionConfigView::Independent { .. } => "    kind: independent\n"@,
        ActionConfigView::InputSource { .. } => "    kind: input_source\n"@,
        ActionConfigView::Command { .. } => "    kind: command\n"@,
    }
}

/// The lines of an action after the line that names its kind, with `rest`
/// after them.
spec fn action_body(action: ActionConfigView, rest: Seq<char>) -> Seq<char> {
    match action {
        ActionConfigView::Directional { action } => "    action: "@ + (directional_name(action) + (
        "\n"@ + rest)),
        ActionConfigView::Jump { direction, count } => "    direction: "@ + (jump_name(direction) + (
        "\n"@ + ("    count: "@ + (decimal(count as nat) + ("\n"@ + rest))))),
        ActionConfigView::Independent { action } => "    action: "@ + (independent_name(action) + (
        "\n"@ + rest)),
        ActionConfigView::InputSource { input_source_id } => "    input_source_id: "@ + (quoted(
            input_source_id,
        ) + ("\n"@ + rest)),
        ActionConfigView::Command { command } => "    command: "@ + (quoted(command) + ("\n"@
            + rest)),
    }
}

/// The text of an action with `rest` after it, regrouped from the front.
proof fn lemma_action_text_regrouped(action: ActionConfigView, rest: Seq<char>)
    ensures
        action_text(action) + rest == kind_line(action) + action_body(action, rest),
{
    let k = kind_line(action);
    let l = "\n"@;
    match action {
        ActionConfigView::Directional { action } => {
            let f = "    action: "@;
            let v = directional_name(action);
            lemma_regroup(k + f + v, l, rest);
            lemma_regroup(k + f, v, l + rest);
            lemma_regroup(k, f, v + (l + rest));
        },
        ActionConfigView::Jump { direction, count } => {
            let f = "    direction: "@;
            let v = jump_name(direction);
            let g = "    count: "@;
            let c = decimal(count as nat);
            lemma_regroup(k + f + v + l + g + c, l, rest);
            lemma_regroup(k + f + v + l + g, c, l + rest);
            lemma_regroup(k + f + v + l, g, c + (l + rest));
            lemma_regroup(k + f + v, l, g + (c + (l + rest)));
            lemma_regroup(k + f, v, l + (g + (c + (l + rest))));
            lemma_regroup(k, f, v + (l + (g + (c + (l + rest)))));
        },
        ActionConfigView::Independent { action } => {
            let f = "    action: "@;
            let v = independent_name(action);
            lemma_regroup(k + f + v, l, rest);
            lemma_regroup(k + f, v, l + rest);
            lemma_regroup(k, f, v + (l + rest));
        },
        ActionConfigView::InputSource { input_source_id } => {
            let f = "    input_source_id: "@;
            let v = quoted(input_source_id);
            lemma_regroup(k + f + v, l, rest);
            lemma_regroup(k + f, v, l + rest);
            lemma_regroup(k, f, v + (l + rest));
        },
        ActionConfigView::Command { command } => {
            let f = "    command: "@;
            let v = quoted(command);
            lemma_regroup(k + f + v, l, rest);
            lemma_regroup(k + f, v, l + rest);
            lemma_regroup(k, f, v + (l + rest));
        },
    }
}

/// The lines of an action, with anything after them, can be read back.
proof fn lemma_action_reads_back(
    a1: ActionConfigView,
    r1: Seq<char>,
    a2: ActionConfigView,
    r2: Seq<char>,
)
    requires
        action_text(a1) + r1 == action_text(a2) + r2,
    ensures
        a1 == a2,
        r1 == r2,
{
    reveal_strlit("\n");
    reveal_strlit("    kind: directional\n");
    reveal_strlit("    kind: jump\n");
    reveal_strlit("    kind: independent\n");
    reveal_strlit("    kind: input_source\n");
    reveal_strlit("    kind: command\n");
    lemma_action_text_regrouped(a1, r1);
    lemma_action_text_regrouped(a2, r2);
    let left = kind_line(a1) + action_body(a1, r1);
    let right = kind_line(a2) + action_body(a2, r2);
    assert(left[10] == kind_line(a1)[10]);
    assert(right[10] == kind_line(a2)[10]);
    assert(left[12] == kind_line(a1)[12]);
    assert(right[12] == kind_line(a2)[12]);
    assert(kind_line(a1) == kind_line(a2));
    lemma_cancel_head(kind_line(a1), action_body(a1, r1), action_body(a2, r2));
    match (a1, a2) {
        (
            ActionConfigView::Directional { action: d1 },
            ActionConfigView::Directional { action: d2 },
        ) => {
            lemma_cancel_head(
                "    action: "@,
                directional_name(d1) + ("\n"@ + r1),
                directional_name(d2) + ("\n"@ + r2),
            );
            lemma_directional_name_reads_back(d1, r1, d2, r2);
        },
        (
            ActionConfigView::Jump { direction: d1, count: c1 },
            ActionConfigView::Jump { direction: d2, count: c2 },
        ) => {
            let after1 = "    count: "@ + (decimal(c1 as nat) + ("\n"@ + r1));
            let after2 = "    count: "@ + (decimal(c2 as nat) + ("\n"@ + r2));
            lemma_cancel_head(
                "    direction: "@,
                jump_name(d1) + ("\n"@ + after1),
                jump_name(d2) + ("\n"@ + after2),
            );
            lemma_jump_name_reads_back(d1, after1, d2, after2);
            lemma_cancel_head(
                "    count: "@,
                decimal(c1 as nat) + ("\n"@ + r1),
                decimal(c2 as nat) + ("\n"@ + r2),
            );
            assert(("\n"@ + r1)[0] == '\n');
            assert(("\n"@ + r2)[0] == '\n');
            lemma_decimal_reads_back(c1 as nat, "\n"@ + r1, c2 as nat, "\n"@ + r2);
            lemma_cancel_head("\n"@, r1, r2);
        },
        (
            ActionConfigView::Independent { action: k1 },
            ActionConfigView::Independent { action: k2 },
        ) => {
            lemma_cancel_head(
                "    action: "@,
                independent_name(k1) + ("\n"@ + r1),
                independent_name(k2) + ("\n"@ + r2),
            );
            lemma_independent_name_reads_back(k1, r1, k2, r2);
        },
        (
            ActionConfigView::InputSource { input_source_id: s1 },
            ActionConfigView::InputSource { input_source_id: s2 },
        ) => {
            lemma_cancel_head(
                "    input_source_id: "@,
                quoted(s1) + ("\n"@ + r1),
                quoted(s2) + ("\n"@ + r2),
            );
            lemma_quoted_reads_back(s1, r1, s2, r2);
        },
        (
            ActionConfigView::Command { command: s1 },
            ActionConfigView::Command { command: s2 },
        ) => {
            lemma_cancel_head(
                "    command: "@,
                quoted(s1) + ("\n"@ + r1),
                quoted(s2) + ("\n"@ + r2),
            );
            lemma_quoted_reads_back(s1, r1, s2, r2);
        },
        _ => {},
    }
}

/// The block of an entry after its key, with `rest` after it.
spec fn after_key(entry: ActionMappingEntryView, rest: Seq<char>) -> Seq<char> {
    " # "@ + (key_name(entry.key) + ("\n"@ + ("  with_shift: "@ + after_label(entry, rest))))
}

/// The block of an entry from the value of `with_shift` on, with `rest`
/// after it.
spec fn after_label(entry: ActionMappingEntryView, rest: Seq<char>) -> Seq<char> {
    bool_text(entry.with_shift) + ("\n"@ + ("  action:\n"@ + (action_text(entry.action) + rest)))
}

/// The block of an entry with `rest` after it, regrouped from the front.
proof fn lemma_entry_text_regrouped(entry: ActionMappingEntryView, rest: Seq<char>)
    ensures
        entry_text(entry) + rest == "- key: "@ + (decimal(entry.key as nat) + after_key(
            entry,
            rest,
        )),
{
    let a = "- key: "@;
    let d = decimal(entry.key as nat);
    let b = " # "@;
    let n = key_name(entry.key);
    let l = "\n"@;
    let w = "  with_shift: "@;
    let t = bool_text(entry.with_shift);
    let c = "  action:\n"@;
    let x = action_text(entry.action);
    lemma_regroup(a + d + b + n + l + w + t + l + c, x, rest);
    lemma_regroup(a + d + b + n + l + w + t + l, c, x + rest);
    lemma_regroup(a + d + b + n + l + w + t, l, c + (x + rest));
    lemma_regroup(a + d + b + n + l + w, t, l + (c + (x + rest)));
    lemma_regroup(a + d + b + n + l, w, t + (l + (c + (x + rest))));
    lemma_regroup(a + d + b + n, l, w + (t + (l + (c + (x + rest)))));
    lemma_regroup(a + d + b, n, l + (w + (t + (l + (c + (x + rest))))));
    lemma_regroup(a + d, b, n + (l + (w + (t + (l + (c + (x + rest)))))));
    lemma_regroup(a, d, b + (n + (l + (w + (t + (l + (c + (x + rest))))))));
}

/// The block of an entry, with anything after it, can be read back: equal
/// texts of this shape hold the same entry and the same rest.
proof fn lemma_entry_reads_back(
    e1: ActionMappingEntryView,
    r1: Seq<char>,
    e2: ActionMappingEntryView,
    r2: Seq<char>,
)
    requires
        entry_text(e1) + r1 == entry_text(e2) + r2,
    ensures
        e1 == e2,
        r1 == r2,
{
    reveal_strlit("\n");
    reveal_strlit(" # ");
    reveal_strlit("true");
    reveal_strlit("false");
    lemma_entry_text_regrouped(e1, r1);
    lemma_entry_text_regrouped(e2, r2);
    lemma_cancel_head(
        "- key: "@,
        decimal(e1.key as nat) + after_key(e1, r1),
        decimal(e2.key as nat) + after_key(e2, r2),
    );
    assert(after_key(e1, r1)[0] == ' ');
    assert(after_key(e2, r2)[0] == ' ');
    lemma_decimal_reads_back(
        e1.key as nat,
        after_key(e1, r1),
        e2.key as nat,
        after_key(e2, r2),
    );
    assert(e1.key == e2.key);
    let name = key_name(e1.key);
    lemma_cancel_head(
        " # "@,
        name + ("\n"@ + ("  with_shift: "@ + after_label(e1, r1))),
        name + ("\n"@ + ("  with_shift: "@ + after_label(e2, r2))),
    );
    lemma_cancel_head(
        name,
        "\n"@ + ("  with_shift: "@ + after_label(e1, r1)),
        "\n"@ + ("  with_shift: "@ + after_label(e2, r2)),
    );
    lemma_cancel_head(
        "\n"@,
        "  with_shift: "@ + after_label(e1, r1),
        "  with_shift: "@ + after_label(e2, r2),
    );
    lemma_cancel_head("  with_shift: "@, after_label(e1, r1), after_label(e2, r2));
    assert(after_label(e1, r1)[0] == bool_text(e1.with_shift)[0]);
    assert(after_label(e2, r2)[0] == bool_text(e2.with_shift)[0]);
    assert(e1.with_shift == e2.with_shift);
    let tail1 = "  action:\n"@ + (action_text(e1.action) + r1);
    let tail2 = "  action:\n"@ + (action_text(e2.action) + r2);
    lemma_cancel_head(bool_text(e1.with_shift), "\n"@ + tail1, "\n"@ + tail2);
    lemma_cancel_head("\n"@, tail1, tail2);
    lemma_cancel_head("  action:\n"@, action_text(e1.action) + r1, action_text(e2.action) + r2);
    lemma_action_reads_back(e1.action, r1, e2.action, r2);
}

/// The blocks of a table go entry by entry from the front as well.
proof fn lemma_entries_from_front(table: Seq<ActionMappingEntryView>)
    requires
        table.len() > 0,
    ensures
        entries_text(table) == entry_text(table[0]) + entries_text(table.drop_first()),
    decreases table.len(),
{
    if table.len() == 1 {
        assert(table.drop_last() =~= Seq::<ActionMappingEntryView>::empty());
        assert(table.drop_first() =~= Seq::<ActionMappingEntryView>::empty());
        assert(entries_text(table) =~= entry_text(table[0]) + entries_text(table.drop_first()));
    } else {
        let front = table.drop_last();
        lemma_entries_from_front(front);
        assert(front.drop_first() =~= table.drop_first().drop_last());
        assert(table.drop_first().last() == table.last());
        assert(front[0] == table[0]);
        assert(entries_text(table) =~= entry_text(table[0]) + entries_text(table.drop_first()));
    }
}

/// Tables with the same blocks of text are the same table.
proof fn lemma_entries_read_back(
    a: Seq<ActionMappingEntryView>,
    b: Seq<ActionMappingEntryView>,
)
    requires
        entries_text(a) == entries_text(b),
    ensures
        a == b,
    decreases a.len(),
{
    reveal_strlit("- key: ");
    if a.len() == 0 {
        if b.len() > 0 {
            lemma_entries_from_front(b);
            lemma_entry_text_regrouped(b[0], entries_text(b.drop_first()));
            assert(entries_text(b).len() >= 7);
        }
        assert(a =~= b);
    } else if b.len() == 0 {
        lemma_entries_from_front(a);
        lemma_entry_text_regrouped(a[0], entries_text(a.drop_first()));
        assert(entries_text(a).len() >= 7);
    } else {
        lemma_entries_from_front(a);
        lemma_entries_from_front(b);
        lemma_entry_reads_back(
            a[0],
            entries_text(a.drop_first()),
            b[0],
            entries_text(b.drop_first()),
        );
        lemma_entries_read_back(a.drop_first(), b.drop_first());
        assert(a =~= seq![a[0]] + a.drop_first());
        assert(b =~= seq![b[0]] + b.drop_first());
    }
}

/// Rendering loses nothing: two tables with the same rendered text are the
/// same table, entry for entry and in the same order. So whatever reads the
/// text back faithfully yields the table that was written.
pub proof fn law_rendered_text_determines_table(
    a: Seq<ActionMappingEntryView>,
    b: Seq<ActionMappingEntryView>,
)
    requires
        rendered(a) == rendered(b),
    ensures
        a == b,
{
    lemma_cancel_head(header_text(), entries_text(a), entries_text(b));
    lemma_entries_read_back(a, b);
}

} // verus!
