use vstd::prelude::*;
use vstd::string::*;

verus! {

/// The character of one decimal digit.
pub open spec fn digit_char(digit: nat) -> char {
    if digit == 0 {
        '0'
    } else if digit == 1 {
        '1'
    } else if digit == 2 {
        '2'
    } else if digit == 3 {
        '3'
    } else if digit == 4 {
        '4'
    } else if digit == 5 {
        '5'
    } else if digit == 6 {
        '6'
    } else if digit == 7 {
        '7'
    } else if digit == 8 {
        '8'
    } else {
        '9'
    }
}

/// A number in decimal, without sign or leading zeros.
pub open spec fn decimal_text(n: nat) -> Seq<char>
    decreases n,
{
    if n < 10 {
        seq![digit_char(n)]
    } else {
        decimal_text(n / 10).push(digit_char(n % 10))
    }
}

fn digit_text(digit: u64) -> (text: &'static str)
    requires
        digit < 10,
    ensures
        text@ == seq![digit_char(digit as nat)],
{
    proof {
        reveal_strlit("0");
        reveal_strlit("1");
        reveal_strlit("2");
        reveal_strlit("3");
        reveal_strlit("4");
        reveal_strlit("5");
        reveal_strlit("6");
        reveal_strlit("7");
        reveal_strlit("8");
        reveal_strlit("9");
    }
    let text = if digit == 0 {
        "0"
    } else if digit == 1 {
        "1"
    } else if digit == 2 {
        "2"
    } else if digit == 3 {
        "3"
    } else if digit == 4 {
        "4"
    } else if digit == 5 {
        "5"
    } else if digit == 6 {
        "6"
    } else if digit == 7 {
        "7"
    } else if digit == 8 {
        "8"
    } else {
        "9"
    };
    assert(text@ =~= seq![digit_char(digit as nat)]);
    text
}

/// Writes a number in decimal.
pub fn decimal(n: u64) -> (text: String)
    ensures
        text@ == decimal_text(n as nat),
    decreases n,
{
    let last = digit_text(n % 10);
    if n < 10 {
        String::from_str(last)
    } else {
        let text = decimal(n / 10).concat(last);
        assert(text@ =~= decimal_text(n as nat));
        text
    }
}

/// The texts of a list of words.
pub open spec fn words(list: Vec<String>) -> Seq<Seq<char>> {
    Seq::new(list@.len(), |i: int| list@[i]@)
}

/// The texts of a list of commands, each a list of words.
pub open spec fn lines(list: Vec<Vec<String>>) -> Seq<Seq<Seq<char>>> {
    Seq::new(list@.len(), |i: int| words(list@[i]))
}

/// A list of three words.
pub(crate) fn triple(a: &str, b: &str, c: &str) -> (list: Vec<String>)
    ensures
        words(list) == seq![a@, b@, c@],
{
    let mut list: Vec<String> = Vec::new();
    list.push(String::from_str(a));
    list.push(String::from_str(b));
    list.push(String::from_str(c));
    assert(words(list) =~= seq![a@, b@, c@]);
    list
}

/// A list of four words.
pub(crate) fn quadruple(a: &str, b: &str, c: &str, d: &str) -> (list: Vec<String>)
    ensures
        words(list) == seq![a@, b@, c@, d@],
{
    let mut list: Vec<String> = Vec::new();
    list.push(String::from_str(a));
    list.push(String::from_str(b));
    list.push(String::from_str(c));
    list.push(String::from_str(d));
    assert(words(list) =~= seq![a@, b@, c@, d@]);
    list
}

} // verus!
