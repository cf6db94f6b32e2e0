use vstd::prelude::*;

use crate::config::{Config, VpnFile};
use crate::text::{
    all_digits, choice_value, decimal_string, decimal_text, digit_char, digit_value, digits_value,
    is_digit, parse_choice, trimmed, unsigned_body, unsigned_value,
};

verus! {

/// The menu line of the entry at 0-based `index`: `<index+1>: <name> (<path>)`.
pub open spec fn menu_line_text(index: nat, entry: (Seq<char>, Seq<char>)) -> Seq<char> {
    decimal_text(index + 1) + ": "@ + entry.0 + " ("@ + entry.1 + ")"@
}

/// The line that confirms a selection: `You selected: <name> (<path>)`.
pub open spec fn selection_text(entry: (Seq<char>, Seq<char>)) -> Seq<char> {
    "You selected: "@ + entry.0 + " ("@ + entry.1 + ")"@
}

/// The 0-based entry that a choice picks out of `count` entries, if any.
pub open spec fn selected_index(count: nat, choice: nat) -> Option<nat> {
    if 1 <= choice && choice <= count {
        Some((choice - 1) as nat)
    } else {
        None
    }
}

/// Formats the menu line of one entry.
pub fn menu_line(index: usize, entry: &VpnFile) -> (r: String)
    requires
        index < usize::MAX,
    ensures
        r@ == menu_line_text(index as nat, entry@),
{
    let mut s = decimal_string(index + 1);
    s.append(": ");
    s.append(entry.name.as_str());
    s.append(" (");
    s.append(entry.path.as_str());
    s.append(")");
    s
}

/// The menu: one line per entry, numbered from 1 in file order.
pub fn menu_lines(config: &Config) -> (r: Vec<String>)
    ensures
        r@.len() == config@.len(),
        forall|i: int|
            0 <= i < r@.len() ==> (#[trigger] r@[i])@ == menu_line_text(i as nat, config@[i]),
{
    let n = config.vpn_files.len();
    let mut lines: Vec<String> = Vec::new();
    let mut i: usize = 0;
    while i < n
        invariant
            n == config@.len(),
            n == config.vpn_files@.len(),
            i <= n,
            lines@.len() == i,
            forall|j: int|
                0 <= j < i ==> (#[trigger] lines@[j])@ == menu_line_text(j as nat, config@[j]),
        decreases n - i,
    {
        let line = menu_line(i, &config.vpn_files[i]);
        lines.push(line);
        i = i + 1;
    }
    lines
}

/// Formats the line that echoes the selected entry.
pub fn selection_line(entry: &VpnFile) -> (r: String)
    ensures
        r@ == selection_text(entry@),
{
    let mut s = String::from_str("You selected: ");
    s.append(entry.name.as_str());
    s.append(" (");
    s.append(entry.path.as_str());
    s.append(")");
    s
}

/// Validates a choice against the number of entries: a value in `1..=count`
/// selects the entry at `choice - 1`; zero and larger values select nothing.
pub fn select_entry(count: usize, choice: usize) -> (r: Option<usize>)
    ensures
        r matches Some(k) ==> selected_index(count as nat, choice as nat) == Some(k as nat),
        r is None <==> selected_index(count as nat, choice as nat) is None,
{
    if choice == 0 || choice > count {
        None
    } else {
        Some(choice - 1)
    }
}

/// Reads a line of input as a choice among the entries of `config`.
pub fn pick_entry(config: &Config, input: &str) -> (r: Option<usize>)
    ensures
        r matches Some(k) ==> selected_index(config@.len(), choice_value(trimmed(input@)))
            == Some(k as nat),
        r is None <==> selected_index(config@.len(), choice_value(trimmed(input@))) is None,
{
    select_entry(config.vpn_files.len(), parse_choice(input))
}

proof fn lemma_digit_char(d: nat)
    requires
        d < 10,
    ensures
        is_digit(digit_char(d)),
        digit_value(digit_char(d)) == d,
{
    let c = digit_char(d);
    assert(c as nat == '0' as nat + d);
}

proof fn lemma_decimal_text_digits(n: nat)
    ensures
        decimal_text(n).len() > 0,
        all_digits(decimal_text(n)),
        digits_value(decimal_text(n)) == n,
    decreases n,
{
    let t = decimal_text(n);
    lemma_digit_char(n % 10);
    if n < 10 {
        assert(t.drop_last() =~= Seq::<char>::empty());
        assert(digits_value(Seq::<char>::empty()) == 0);
    } else {
        lemma_decimal_text_digits(n / 10);
        assert(t.drop_last() =~= decimal_text(n / 10));
        assert forall|i: int| 0 <= i < t.len() implies is_digit(#[trigger] t[i]) by {
            if i < t.len() - 1 {
                assert(t[i] == decimal_text(n / 10)[i]);
            }
        }
    }
}

/// Zero, text that is no number, and any number above the entry count all
/// select nothing.
pub proof fn lemma_invalid_choice(t: Seq<char>, count: nat)
    requires
        t == seq!['0'] || unsigned_value(t) is None || (unsigned_value(t) matches Some(v) && v
            > count),
    ensures
        selected_index(count, choice_value(t)) is None,
{
    if t == seq!['0'] {
        assert(unsigned_body(t) =~= t);
        assert(t.drop_last() =~= Seq::<char>::empty());
        assert(all_digits(t));
        assert(digits_value(Seq::<char>::empty()) == 0);
        assert(digits_value(t) == 0);
    }
}

/// The decimal numeral of any `k` in `1..=count` selects the entry at `k - 1`.
pub proof fn lemma_numeral_selects(k: nat, count: nat)
    requires
        1 <= k <= count,
        count <= usize::MAX,
    ensures
        selected_index(count, choice_value(decimal_text(k))) == Some((k - 1) as nat),
{
    lemma_decimal_text_digits(k);
    let t = decimal_text(k);
    assert(t[0] != '+');
    assert(unsigned_body(t) == t);
}

} // verus!
