//! Building the texts of messages and console lines.

use crate::inventory::texts;
use vstd::prelude::*;
use vstd::string::StringExecFns;

verus! {

/// The character of a decimal digit.
pub open spec fn digit_char(d: nat) -> char {
    if d == 0 {
        '0'
    } else if d == 1 {
        '1'
    } else if d == 2 {
        '2'
    } else if d == 3 {
        '3'
    } else if d == 4 {
        '4'
    } else if d == 5 {
        '5'
    } else if d == 6 {
        '6'
    } else if d == 7 {
        '7'
    } else if d == 8 {
        '8'
    } else {
        '9'
    }
}

/// A number written in decimal, without sign or leading zeros.
pub open spec fn decimal(n: nat) -> Seq<char>
    decreases n,
{
    if n < 10 {
        seq![digit_char(n)]
    } else {
        decimal(n / 10).push(digit_char(n % 10))
    }
}

/// The one-character text of a decimal digit.
fn digit_text(d: usize) -> (result: &'static str)
    requires
        d < 10,
    ensures
        result@ == seq![digit_char(d as nat)],
{
    proof {
        reveal_strlit("0");
        reveal_strlit("1");
        reveal_strlit("2");
        reveal_strlit("3");
        reveal_strlit("4");
        reveal_strlit("5");
        reveal_strlit("6");
        reveal_strlit("7");
        reveal_strlit("8");
        reveal_strlit("9");
    }
    let result = if d == 0 {
        "0"
    } else if d == 1 {
        "1"
    } else if d == 2 {
        "2"
    } else if d == 3 {
        "3"
    } else if d == 4 {
        "4"
    } else if d == 5 {
        "5"
    } else if d == 6 {
        "6"
    } else if d == 7 {
        "7"
    } else if d == 8 {
        "8"
    } else {
        "9"
    };
    assert(result@ =~= seq![digit_char(d as nat)]);
    result
}

/// Writes a count in decimal.
pub fn to_decimal(n: usize) -> (result: String)
    ensures
        result@ == decimal(n as nat),
    decreases n,
{
    if n < 10 {
        digit_text(n).to_owned()
    } else {
        let mut result = to_decimal(n / 10);
        result.append(digit_text(n % 10));
        assert(result@ =~= decimal(n as nat));
        result
    }
}

/// Joins a fixed prefix and a varying tail into one text.
pub fn join(prefix: &str, tail: &str) -> (result: String)
    ensures
        result@ == prefix@ + tail@,
{
    let mut result = prefix.to_owned();
    result.append(tail);
    result
}

/// Texts written one after the other, with a comma and a space between
/// each two.
pub open spec fn listed(items: Seq<Seq<char>>) -> Seq<char>
    decreases items.len(),
{
    if items.len() == 0 {
        Seq::empty()
    } else if items.len() == 1 {
        items[0]
    } else {
        listed(items.drop_last()) + ", "@ + items.last()
    }
}

/// Writes a list of texts on one line.
pub fn list_texts(items: &Vec<String>) -> (result: String)
    ensures
        result@ == listed(texts(items@)),
{
    let mut result = String::new();
    let mut i: usize = 0;
    assert(texts(items@).take(0) =~= Seq::empty());
    while i < items.len()
        invariant
            i <= items.len(),
            result@ == listed(texts(items@).take(i as int)),
        decreases items.len() - i,
    {
        let ghost upto = texts(items@).take(i + 1);
        assert(upto.drop_last() =~= texts(items@).take(i as int));
        assert(upto.last() == items@[i as int]@);
        if i > 0 {
            result.append(", ");
        }
        result.append(items[i].as_str());
        assert(result@ =~= listed(upto));
        i = i + 1;
    }
    assert(texts(items@).take(i as int) =~= texts(items@));
    result
}

} // verus!
