//! Numbers and lists as they appear in messages.

use vstd::prelude::*;
use vstd::string::*;

verus! {

/// The character of one decimal digit.
pub open spec fn digit_char(digit: nat) -> char {
    if digit == 0 {
        '0'
    } else if digit == 1 {
        '1'
    } else if digit == 2 {
        '2'
    } else if digit == 3 {
        '3'
    } else if digit == 4 {
        '4'
    } else if digit == 5 {
        '5'
    } else if digit == 6 {
        '6'
    } else if digit == 7 {
        '7'
    } else if digit == 8 {
        '8'
    } else {
        '9'
    }
}

/// A natural number in decimal, without leading zeros.
pub open spec fn decimal_nat(n: nat) -> Seq<char>
    decreases n,
{
    if n < 10 {
        seq![digit_char(n)]
    } else {
        decimal_nat(n / 10).push(digit_char(n % 10))
    }
}

/// An integer in decimal, with a minus sign before a negative one.
pub open spec fn decimal(n: int) -> Seq<char> {
    if n < 0 {
        seq!['-'] + decimal_nat((-n) as nat)
    } else {
        decimal_nat(n as nat)
    }
}

/// The texts of owned strings.
pub open spec fn texts(strings: Seq<String>) -> Seq<Seq<char>> {
    strings.map_values(|s: String| s@)
}

/// The text of an owned string, where there is one.
pub open spec fn option_text(string: Option<String>) -> Option<Seq<char>> {
    match string {
        Some(s) => Some(s@),
        None => None,
    }
}

/// What follows the first item of a comma-separated list: every item from `from` on, each
/// after a comma and a space.
pub open spec fn comma_tail(items: Seq<Seq<char>>, from: int) -> Seq<char>
    decreases items.len() - from,
{
    if 0 <= from < items.len() {
        ", "@ + items[from] + comma_tail(items, from + 1)
    } else {
        Seq::empty()
    }
}

/// The items one after another, with a comma and a space between two of them.
pub open spec fn comma_list(items: Seq<Seq<char>>) -> Seq<char> {
    if items.len() == 0 {
        Seq::empty()
    } else {
        items[0] + comma_tail(items, 1)
    }
}

fn digit_text(digit: u64) -> (text: &'static str)
    requires
        digit < 10,
    ensures
        text@ == seq![digit_char(digit as nat)],
{
    proof {
        reveal_strlit("0");
        reveal_strlit("1");
        reveal_strlit("2");
        reveal_strlit("3");
        reveal_strlit("4");
        reveal_strlit("5");
        reveal_strlit("6");
        reveal_strlit("7");
        reveal_strlit("8");
        reveal_strlit("9");
    }
    match digit {
        0 => "0",
        1 => "1",
        2 => "2",
        3 => "3",
        4 => "4",
        5 => "5",
        6 => "6",
        7 => "7",
        8 => "8",
        _ => "9",
    }
}

/// Writes an unsigned number in decimal.
pub fn unsigned_text(n: u64) -> (text: String)
    ensures
        text@ == decimal(n as int),
    decreases n,
{
    if n < 10 {
        digit_text(n).to_string()
    } else {
        let mut text = unsigned_text(n / 10);
        text.append(digit_text(n % 10));
        text
    }
}

/// Writes a signed number in decimal.
pub fn signed_text(n: i64) -> (text: String)
    ensures
        text@ == decimal(n as int),
{
    if n < 0 {
        let magnitude: u64 = (-(n as i128)) as u64;
        let digits = unsigned_text(magnitude);
        let mut text = "-".to_string();
        text.append(digits.as_str());
        proof {
            reveal_strlit("-");
        }
        text
    } else {
        unsigned_text(n as u64)
    }
}

/// Puts the items into one comma-separated line.
pub fn join_with_commas(items: &Vec<String>) -> (text: String)
    ensures
        text@ == comma_list(texts(items@)),
{
    let ghost shown = texts(items@);
    let mut text = String::new();
    if items.len() == 0 {
        return text;
    }
    text.append(items[0].as_str());
    let mut next: usize = 1;
    while next < items.len()
        invariant
            1 <= next <= items.len(),
            shown == texts(items@),
            text@ + comma_tail(shown, next as int) == comma_list(shown),
        decreases items.len() - next,
    {
        let ghost before = text@;
        text.append(", ");
        text.append(items[next].as_str());
        assert(before + (", "@ + shown[next as int] + comma_tail(shown, next + 1)) =~= text@
            + comma_tail(shown, next + 1));
        next += 1;
    }
    text
}

/// Whether `part` stands somewhere in `whole`.
pub open spec fn contains_text(whole: Seq<char>, part: Seq<char>) -> bool {
    exists|at: int|
        0 <= at <= whole.len() - part.len() && #[trigger] whole.subrange(at, at + part.len())
            == part
}

/// Whether `whole` ends in `part`.
pub open spec fn ends_with(whole: Seq<char>, part: Seq<char>) -> bool {
    whole.len() >= part.len() && whole.skip(whole.len() - part.len()) == part
}

/// The number that a decimal digit stands for.
pub open spec fn digit_value(digit: char) -> nat {
    (digit as int - '0' as int) as nat
}

/// The number that a row of decimal digits stands for.
pub open spec fn digits_value(digits: Seq<char>) -> nat
    decreases digits.len(),
{
    if digits.len() == 0 {
        0
    } else {
        10 * digits_value(digits.drop_last()) + digit_value(digits.last())
    }
}

/// The number that a text of decimal digits stands for, behind a minus sign or not.
pub open spec fn decimal_value(text: Seq<char>) -> int {
    if text.len() > 0 && text[0] == '-' {
        -(digits_value(text.skip(1)) as int)
    } else {
        digits_value(text) as int
    }
}

proof fn digits_read_back(n: nat)
    ensures
        decimal_nat(n).len() > 0,
        decimal_nat(n)[0] != '-',
        digits_value(decimal_nat(n)) == n,
    decreases n,
{
    if n < 10 {
        let digits = seq![digit_char(n)];
        assert(digits.drop_last() =~= Seq::empty());
        assert(digits_value(digits.drop_last()) == 0);
    } else {
        digits_read_back(n / 10);
        assert(decimal_nat(n).drop_last() =~= decimal_nat(n / 10));
    }
}

/// A number is read back from its decimal text, so no two numbers are written alike.
pub proof fn decimal_reads_back(n: int)
    ensures
        decimal_value(decimal(n)) == n,
{
    if n < 0 {
        digits_read_back((-n) as nat);
        assert(decimal(n).skip(1) =~= decimal_nat((-n) as nat));
    } else {
        digits_read_back(n as nat);
    }
}

/// A number below ten is one digit, and a larger one is the number without its last digit
/// followed by that digit. A negative number is a minus sign before its opposite. No number but
/// zero begins with a zero.
pub proof fn decimal_goes_digit_by_digit(n: int)
    requires
        n >= 0,
    ensures
        n < 10 ==> decimal(n).len() == 1 && decimal(n)[0] as int == '0' as int + n,
        n >= 10 ==> decimal(n).len() == decimal(n / 10).len() + 1,
        n >= 10 ==> decimal(n).drop_last() == decimal(n / 10),
        decimal(n).last() as int == '0' as int + n % 10,
        n > 0 ==> decimal(n)[0] != '0',
        n > 0 ==> decimal(-n).len() == decimal(n).len() + 1,
        n > 0 ==> decimal(-n)[0] == '-' && decimal(-n).skip(1) == decimal(n),
    decreases n,
{
    if n >= 10 {
        decimal_goes_digit_by_digit(n / 10);
        digits_read_back((n / 10) as nat);
        assert(decimal(n).drop_last() =~= decimal(n / 10));
    }
    if n > 0 {
        assert(decimal(-n).skip(1) =~= decimal(n));
    }
}

proof fn tail_of_longer_list(items: Seq<Seq<char>>, item: Seq<char>, from: int)
    requires
        0 <= from <= items.len(),
    ensures
        comma_tail(items.push(item), from) == comma_tail(items, from) + (", "@ + item),
    decreases items.len() - from,
{
    if from < items.len() {
        tail_of_longer_list(items, item, from + 1);
        assert(comma_tail(items.push(item), from) =~= comma_tail(items, from) + (", "@ + item));
    } else {
        assert(comma_tail(items.push(item), from + 1) =~= Seq::empty());
        assert(comma_tail(items.push(item), from) =~= comma_tail(items, from) + (", "@ + item));
    }
}

/// A list of one item is that item, and each further item stands behind the list so far, after
/// a comma and a space.
pub proof fn comma_list_goes_item_by_item(items: Seq<Seq<char>>, item: Seq<char>)
    ensures
        items.len() == 0 ==> comma_list(items).len() == 0,
        items.len() == 0 ==> comma_list(items.push(item)) == item,
        items.len() > 0 ==> comma_list(items.push(item)) == comma_list(items) + seq![',', ' ']
            + item,
{
    reveal_strlit(", ");
    assert(", "@ =~= seq![',', ' ']);
    if items.len() == 0 {
        assert(comma_list(items.push(item)) =~= item);
    } else {
        tail_of_longer_list(items, item, 1);
        assert(comma_list(items.push(item)) =~= comma_list(items) + seq![',', ' '] + item);
    }
}

/// Strings and their texts go one for one.
pub proof fn texts_go_one_for_one(strings: Seq<String>, shown: Seq<Seq<char>>)
    requires
        texts(strings) == shown,
    ensures
        strings.len() == shown.len(),
        forall|i: int| 0 <= i < strings.len() ==> (#[trigger] strings[i])@ == shown[i],
{
    assert forall|i: int| 0 <= i < strings.len() implies (#[trigger] strings[i])@ == shown[i] by {
        assert(texts(strings)[i] == strings[i]@);
    }
}

} // verus!
